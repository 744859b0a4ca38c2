use phidget::devices::digital_input::state_from_native;
use phidget::errors::ReturnCode;
use phidget::handle::Handle;
use phidget::native::{
    flag_argument, flag_reply, next_step, value_reply, Address, Flag, Identity, Interval,
    NativeCall, Next, Step, Text, TextCall,
};
use phidget::types::{ChannelClass, DeviceClass, DeviceId};
use phidget::phidget::info_answer;
use phidget::{
    Phidget, PhidgetFilter, PhidgetInfo, PhidgetRef, PHIDGET_CHANNEL_ANY, PHIDGET_HUBPORT_ANY,
    PHIDGET_HUBPORTSPEED_AUTO, PHIDGET_SERIALNUMBER_ANY,
};
use std::time::Duration;

fn view() -> (Handle, PhidgetRef) {
    let handle = Handle::from_addr(0xbeef);
    (handle, PhidgetRef::new(handle))
}

#[test]
fn the_lifecycle_calls() {
    let (handle, phid) = view();
    assert_eq!(phid.open(), NativeCall::Open { handle });
    assert_eq!(phid.close(), NativeCall::Close { handle });
    assert_eq!(
        phid.open_wait(Duration::from_millis(1500)),
        Ok(NativeCall::OpenWaitForAttachment { handle, timeout_ms: 1500 })
    );
    assert_eq!(
        phid.open_wait(Duration::ZERO),
        Ok(NativeCall::OpenWaitForAttachment { handle, timeout_ms: 0 })
    );
}

#[test]
fn the_property_calls() {
    let (handle, phid) = view();
    assert_eq!(phid.is_open(), NativeCall::GetFlag { handle, flag: Flag::IsOpen });
    assert_eq!(phid.is_attached(), NativeCall::GetFlag { handle, flag: Flag::Attached });
    assert_eq!(phid.is_local(), NativeCall::GetFlag { handle, flag: Flag::IsLocal });
    assert_eq!(phid.is_remote(), NativeCall::GetFlag { handle, flag: Flag::IsRemote });
    assert_eq!(
        phid.is_hub_port_device(),
        NativeCall::GetFlag { handle, flag: Flag::IsHubPortDevice }
    );
    assert_eq!(
        phid.set_local(true),
        NativeCall::SetFlag { handle, flag: Flag::IsLocal, on: true }
    );
    assert_eq!(
        phid.set_remote(false),
        NativeCall::SetFlag { handle, flag: Flag::IsRemote, on: false }
    );
    assert_eq!(
        phid.set_is_hub_port_device(true),
        NativeCall::SetFlag { handle, flag: Flag::IsHubPortDevice, on: true }
    );
    assert_eq!(
        phid.hub_port(),
        NativeCall::GetAddress { handle, address: Address::HubPort }
    );
    assert_eq!(phid.channel(), NativeCall::GetAddress { handle, address: Address::Channel });
    assert_eq!(
        phid.serial_number(),
        NativeCall::GetAddress { handle, address: Address::SerialNumber }
    );
    assert_eq!(
        phid.set_hub_port(PHIDGET_HUBPORT_ANY),
        NativeCall::SetAddress { handle, address: Address::HubPort, value: -1 }
    );
    assert_eq!(
        phid.set_channel(PHIDGET_CHANNEL_ANY),
        NativeCall::SetAddress { handle, address: Address::Channel, value: -1 }
    );
    assert_eq!(
        phid.set_serial_number(PHIDGET_SERIALNUMBER_ANY),
        NativeCall::SetAddress { handle, address: Address::SerialNumber, value: -1 }
    );
    assert_eq!(
        phid.set_serial_number(123456),
        NativeCall::SetAddress { handle, address: Address::SerialNumber, value: 123456 }
    );
    assert_eq!(PHIDGET_HUBPORTSPEED_AUTO, 0);
    assert_eq!(
        phid.data_interval(),
        NativeCall::GetDataInterval { handle, interval: Interval::Current }
    );
    assert_eq!(
        phid.min_data_interval(),
        NativeCall::GetDataInterval { handle, interval: Interval::Minimum }
    );
    assert_eq!(
        phid.max_data_interval(),
        NativeCall::GetDataInterval { handle, interval: Interval::Maximum }
    );
    assert_eq!(
        phid.channel_class(),
        NativeCall::GetIdentity { handle, identity: Identity::ChannelClass }
    );
    assert_eq!(
        phid.device_class(),
        NativeCall::GetIdentity { handle, identity: Identity::DeviceClass }
    );
    assert_eq!(
        phid.device_id(),
        NativeCall::GetIdentity { handle, identity: Identity::DeviceId }
    );
    assert_eq!(
        phid.device_channel_count(ChannelClass::VoltageInput),
        NativeCall::GetDeviceChannelCount { handle, class: ChannelClass::VoltageInput }
    );
    assert_eq!(
        phid.channel_class_name(),
        NativeCall::GetText { handle, text: Text::ChannelClassName }
    );
    assert_eq!(phid.channel_name(), NativeCall::GetText { handle, text: Text::ChannelName });
    assert_eq!(
        phid.device_class_name(),
        NativeCall::GetText { handle, text: Text::DeviceClassName }
    );
    assert_eq!(phid.device_name(), NativeCall::GetText { handle, text: Text::DeviceName });
    assert_eq!(phid.device_label(), NativeCall::GetText { handle, text: Text::DeviceLabel });
    assert_eq!(phid.device_sku(), NativeCall::GetText { handle, text: Text::DeviceSku });
}

#[test]
fn the_data_interval_must_fit_in_32_bits() {
    let (handle, phid) = view();
    assert_eq!(
        phid.set_data_interval(Duration::from_millis(250)),
        Ok(NativeCall::SetDataInterval { handle, interval_ms: 250 })
    );
    assert_eq!(
        phid.set_data_interval(Duration::from_secs(5_000_000)),
        Err(ReturnCode::InvalidArg)
    );
    assert_eq!(
        phid.set_data_interval_millis(u32::MAX as u128),
        Ok(NativeCall::SetDataInterval { handle, interval_ms: u32::MAX })
    );
    assert_eq!(
        phid.set_data_interval_millis(u32::MAX as u128 + 1),
        Err(ReturnCode::InvalidArg)
    );
}

#[test]
fn a_label_with_nul_is_rejected() {
    let (handle, phid) = view();
    let with = |call: NativeCall, text: &str| TextCall { call, texts: vec![text.to_string()] };
    assert_eq!(
        phid.set_device_label("bench"),
        Ok(with(NativeCall::SetDeviceLabel { handle }, "bench"))
    );
    assert_eq!(
        phid.set_device_label(""),
        Ok(with(NativeCall::SetDeviceLabel { handle }, ""))
    );
    assert_eq!(phid.set_device_label("be\0nch"), Err(ReturnCode::Invalid));
    assert_eq!(
        phid.write_device_label("größe"),
        Ok(with(NativeCall::WriteDeviceLabel { handle }, "größe"))
    );
    assert_eq!(phid.write_device_label("\0"), Err(ReturnCode::Invalid));
}

#[test]
fn the_empty_filter_sets_nothing() {
    let (_, phid) = view();
    let plan = phid.set_filter(&PhidgetFilter::default());
    assert!(plan.steps.is_empty());
    assert_eq!(plan.label, None);
}

#[test]
fn a_filter_sets_what_it_holds_in_order() {
    let (handle, phid) = view();
    let filter = PhidgetFilter {
        channel: Some(2),
        serial_number: Some(707),
        is_hub_port_device: Some(false),
        hub_port: Some(5),
        device_label: Some(String::from("bench")),
    };
    let plan = phid.set_filter(&filter);
    assert_eq!(plan.label.as_deref(), Some("bench"));
    assert_eq!(
        plan.steps,
        vec![
            Step::Call(NativeCall::SetAddress { handle, address: Address::Channel, value: 2 }),
            Step::Call(NativeCall::SetAddress {
                handle,
                address: Address::SerialNumber,
                value: 707
            }),
            Step::Call(NativeCall::SetFlag {
                handle,
                flag: Flag::IsHubPortDevice,
                on: false
            }),
            Step::Call(NativeCall::SetAddress { handle, address: Address::HubPort, value: 5 }),
            Step::Call(NativeCall::SetDeviceLabel { handle }),
        ]
    );
    let filter = PhidgetFilter {
        hub_port: Some(1),
        is_hub_port_device: Some(true),
        ..PhidgetFilter::default()
    };
    let plan = phid.set_filter(&filter);
    assert_eq!(plan.label, None);
    assert_eq!(
        plan.steps,
        vec![
            Step::Call(NativeCall::SetFlag { handle, flag: Flag::IsHubPortDevice, on: true }),
            Step::Call(NativeCall::SetAddress { handle, address: Address::HubPort, value: 1 }),
        ]
    );
}

#[test]
fn a_filter_with_an_ill_formed_label_fails_at_the_label() {
    let (handle, phid) = view();
    let filter = PhidgetFilter {
        channel: Some(0),
        device_label: Some(String::from("a\0b")),
        ..PhidgetFilter::default()
    };
    let filter_plan = phid.set_filter(&filter);
    assert_eq!(filter_plan.label, None);
    let plan = filter_plan.steps;
    assert_eq!(
        plan,
        vec![
            Step::Call(NativeCall::SetAddress { handle, address: Address::Channel, value: 0 }),
            Step::Fail(ReturnCode::Invalid),
        ]
    );
    assert!(matches!(next_step(&plan, 0, 0), Next::Call(_)));
    assert!(matches!(
        next_step(&plan, 1, 0),
        Next::Finished(Err(ReturnCode::Invalid))
    ));
}

fn run(plan: &Vec<Step>, codes: &[u32]) -> (Vec<NativeCall>, Result<(), ReturnCode>) {
    let mut made = Vec::new();
    let mut answered = 0;
    let mut code = 0;
    loop {
        match next_step(plan, answered, code) {
            Next::Call(call) => {
                made.push(call);
                code = codes[answered];
                answered += 1;
            }
            Next::Finished(result) => return (made, result),
        }
    }
}

#[test]
fn a_sequence_ends_at_the_first_failure() {
    let handle = Handle::from_addr(1);
    let a = NativeCall::Open { handle };
    let b = NativeCall::Close { handle };
    let c = NativeCall::Retain { handle };
    let plan = vec![Step::Call(a), Step::Call(b), Step::Call(c)];
    assert_eq!(run(&plan, &[0, 0, 0]), (vec![a, b, c], Ok(())));
    assert_eq!(run(&plan, &[0, 3, 0]), (vec![a, b], Err(ReturnCode::Timeout)));
    assert_eq!(run(&plan, &[52, 0, 0]), (vec![a], Err(ReturnCode::NotAttached)));
    assert_eq!(run(&plan, &[0, 0, 999]), (vec![a, b, c], Err(ReturnCode::Unexpected)));
    assert_eq!(run(&Vec::new(), &[]), (vec![], Ok(())));
    assert!(matches!(next_step(&plan, 0, 7), Next::Call(_)));
    assert!(matches!(next_step(&plan, 3, 0), Next::Finished(Ok(()))));
    assert!(matches!(next_step(&plan, 9, 0), Next::Finished(Ok(()))));
}

fn replies() -> (
    Result<String, ReturnCode>,
    Result<ChannelClass, ReturnCode>,
    Result<i32, ReturnCode>,
    Result<String, ReturnCode>,
    Result<DeviceClass, ReturnCode>,
    Result<DeviceId, ReturnCode>,
    Result<Option<String>, ReturnCode>,
    Result<i32, ReturnCode>,
    Result<bool, ReturnCode>,
    Result<i32, ReturnCode>,
    Result<String, ReturnCode>,
) {
    (
        Ok(String::from("Temperature Sensor")),
        Ok(ChannelClass::TemperatureSensor),
        Ok(0),
        Ok(String::from("Humidity Phidget")),
        Ok(DeviceClass::Vint),
        Ok(DeviceId::Hum1000),
        Ok(Some(String::from("bench"))),
        Ok(707),
        Ok(false),
        Ok(3),
        Ok(String::from("HUM1000_0")),
    )
}

#[test]
fn the_information_is_gathered_from_the_replies() {
    let r = replies();
    let info =
        PhidgetInfo::from_replies(r.0, r.1, r.2, r.3, r.4, r.5, r.6, r.7, r.8, r.9, r.10).unwrap();
    assert_eq!(info.channel_name, "Temperature Sensor");
    assert_eq!(info.channel_class, ChannelClass::TemperatureSensor);
    assert_eq!(info.channel, 0);
    assert_eq!(info.device_name, "Humidity Phidget");
    assert_eq!(info.device_class, DeviceClass::Vint);
    assert_eq!(info.device_id, DeviceId::Hum1000);
    assert_eq!(info.device_label.as_deref(), Some("bench"));
    assert_eq!(info.serial_number, 707);
    assert!(!info.is_hub_port_device);
    assert_eq!(info.hub_port, Some(3));
    assert_eq!(info.device_sku, "HUM1000_0");

    let filter = PhidgetFilter::from(info);
    assert_eq!(filter.channel, Some(0));
    assert_eq!(filter.serial_number, Some(707));
    assert_eq!(filter.is_hub_port_device, Some(false));
    assert_eq!(filter.hub_port, Some(3));
    assert_eq!(filter.device_label.as_deref(), Some("bench"));
}

#[test]
fn a_missing_hub_port_is_left_out_of_the_information() {
    let r = replies();
    let info = PhidgetInfo::from_replies(
        r.0,
        r.1,
        r.2,
        r.3,
        r.4,
        r.5,
        Ok(None),
        r.7,
        r.8,
        Err(ReturnCode::Unsupported),
        r.10,
    )
    .unwrap();
    assert_eq!(info.hub_port, None);
    assert_eq!(info.device_label, None);
    let filter = PhidgetFilter::from(info);
    assert_eq!(filter.hub_port, None);
    assert_eq!(filter.device_label, None);
}

#[test]
fn the_first_failed_reply_fails_the_information() {
    let r = replies();
    let failed = PhidgetInfo::from_replies(
        r.0,
        Err(ReturnCode::NotAttached),
        r.2,
        r.3,
        r.4,
        Err(ReturnCode::Timeout),
        r.6,
        r.7,
        r.8,
        r.9,
        Err(ReturnCode::Io),
    );
    assert_eq!(failed.err(), Some(ReturnCode::NotAttached));
    let r = replies();
    let failed = PhidgetInfo::from_replies(
        r.0,
        r.1,
        r.2,
        r.3,
        r.4,
        r.5,
        r.6,
        r.7,
        r.8,
        Err(ReturnCode::Timeout),
        Err(ReturnCode::NoMemory),
    );
    assert_eq!(failed.err(), Some(ReturnCode::NoMemory));
}

#[test]
fn replies_with_values() {
    assert_eq!(flag_reply(0, 0), Ok(false));
    assert_eq!(flag_reply(0, 1), Ok(true));
    assert_eq!(flag_reply(0, -7), Ok(true));
    assert_eq!(flag_reply(52, 1), Err(ReturnCode::NotAttached));
    assert_eq!(value_reply(0, 5i32), Ok(5));
    assert_eq!(value_reply(20, 5u32), Err(ReturnCode::Unsupported));
    assert_eq!(flag_argument(true), 1);
    assert_eq!(flag_argument(false), 0);
}

#[test]
fn the_state_of_a_digital_input_keeps_its_low_byte() {
    assert_eq!(state_from_native(0), 0);
    assert_eq!(state_from_native(1), 1);
    assert_eq!(state_from_native(255), 255);
    assert_eq!(state_from_native(256), 0);
    assert_eq!(state_from_native(257), 1);
    assert_eq!(state_from_native(-1), 255);
}

#[test]
fn a_step_that_is_only_tried_may_fail() {
    let handle = Handle::from_addr(1);
    let a = NativeCall::Open { handle };
    let b = NativeCall::Close { handle };
    let c = NativeCall::Retain { handle };
    let plan = vec![Step::Call(a), Step::Try(b), Step::Call(c)];
    assert_eq!(run(&plan, &[0, 20, 0]), (vec![a, b, c], Ok(())));
    assert_eq!(run(&plan, &[0, 0, 3]), (vec![a, b, c], Err(ReturnCode::Timeout)));
    assert_eq!(run(&plan, &[9, 0, 0]), (vec![a], Err(ReturnCode::Busy)));
    let plan = vec![Step::Call(a), Step::Try(b)];
    assert_eq!(run(&plan, &[0, 20]), (vec![a, b], Ok(())));
}

#[test]
fn the_information_is_asked_for_part_by_part() {
    let (handle, phid) = view();
    let plan = phid.info();
    assert_eq!(
        plan,
        vec![
            Step::Call(NativeCall::GetText { handle, text: Text::ChannelName }),
            Step::Call(NativeCall::GetIdentity { handle, identity: Identity::ChannelClass }),
            Step::Call(NativeCall::GetAddress { handle, address: Address::Channel }),
            Step::Call(NativeCall::GetText { handle, text: Text::DeviceName }),
            Step::Call(NativeCall::GetIdentity { handle, identity: Identity::DeviceClass }),
            Step::Call(NativeCall::GetIdentity { handle, identity: Identity::DeviceId }),
            Step::Call(NativeCall::GetText { handle, text: Text::DeviceLabel }),
            Step::Call(NativeCall::GetAddress { handle, address: Address::SerialNumber }),
            Step::Call(NativeCall::GetFlag { handle, flag: Flag::IsHubPortDevice }),
            Step::Try(NativeCall::GetAddress { handle, address: Address::HubPort }),
            Step::Call(NativeCall::GetText { handle, text: Text::DeviceSku }),
        ]
    );
    let all = run(&plan, &[0; 11]);
    assert_eq!(all.0.len(), 11);
    assert_eq!(all.1, Ok(()));
    let without_port = run(&plan, &[0, 0, 0, 0, 0, 0, 0, 0, 0, 20, 0]);
    assert_eq!(without_port.0.len(), 11);
    assert_eq!(without_port.1, Ok(()));
    let stopped = run(&plan, &[0, 0, 0, 52, 0, 0, 0, 0, 0, 0, 0]);
    assert_eq!(stopped.0.len(), 4);
    assert_eq!(stopped.1, Err(ReturnCode::NotAttached));
}

#[test]
fn an_answer_that_cannot_be_read_ends_the_information_sequence() {
    assert_eq!(info_answer(0, 0, 0, true), 0);
    assert_eq!(info_answer(0, 0, 0, false), 6);
    assert_eq!(info_answer(3, 0, 0, false), 6);
    assert_eq!(info_answer(6, 0, 0, false), 0);
    assert_eq!(info_answer(10, 0, 0, false), 0);
    assert_eq!(info_answer(1, 0, 28, false), 0);
    assert_eq!(info_answer(1, 0, 40, false), 21);
    assert_eq!(info_answer(4, 0, 21, false), 0);
    assert_eq!(info_answer(4, 0, 26, false), 21);
    assert_eq!(info_answer(5, 0, 69, false), 0);
    assert_eq!(info_answer(5, 0, 50, false), 21);
    assert_eq!(info_answer(2, 0, 50, false), 0);
    assert_eq!(info_answer(5, 3, 69, true), 3);
    assert_eq!(info_answer(0, 52, 0, false), 52);
    let (_, phid) = view();
    let plan = phid.info();
    let code = info_answer(1, 0, 40, false);
    assert!(matches!(
        next_step(&plan, 2, code),
        Next::Finished(Err(ReturnCode::InvalidArg))
    ));
    let code = info_answer(0, 0, 0, false);
    assert!(matches!(
        next_step(&plan, 1, code),
        Next::Finished(Err(ReturnCode::NoMemory))
    ));
}
