use phidget::errors::ReturnCode;
use phidget::handle::Handle;
use phidget::native::{flag_value, NativeCall, Property};
use phidget::timeout::interval_reply;
use phidget::types::ChannelClass;
use phidget::{
    ControlMode, CurrentInput, DigitalInput, DigitalOutput, Hub, HubPortMode, HumiditySensor,
    InputMode, Phidget, PowerSupply, PressureSensor, RtdType, RtdWireSetup, Stepper,
    TemperatureSensor, ThermocoupleType, VoltageInput, VoltageOutput, VoltageRatioInput,
};
use std::time::Duration;

fn handle() -> Handle {
    Handle::from_addr(0x7000)
}

#[test]
fn every_device_kind_is_created_by_its_own_class() {
    let class = |call: NativeCall| match call {
        NativeCall::Create { class } => class,
        other => panic!("not a create call: {:?}", other),
    };
    assert_eq!(class(CurrentInput::create()), ChannelClass::CurrentInput);
    assert_eq!(class(DigitalInput::create()), ChannelClass::DigitalInput);
    assert_eq!(class(DigitalOutput::create()), ChannelClass::DigitalOutput);
    assert_eq!(class(Hub::create()), ChannelClass::Hub);
    assert_eq!(class(HumiditySensor::create()), ChannelClass::HumiditySensor);
    assert_eq!(class(PressureSensor::create()), ChannelClass::PressureSensor);
    assert_eq!(class(Stepper::create()), ChannelClass::Stepper);
    assert_eq!(class(TemperatureSensor::create()), ChannelClass::TemperatureSensor);
    assert_eq!(class(VoltageInput::create()), ChannelClass::VoltageInput);
    assert_eq!(class(VoltageOutput::create()), ChannelClass::VoltageOutput);
    assert_eq!(class(VoltageRatioInput::create()), ChannelClass::VoltageRatioInput);
}

#[test]
fn every_device_kind_is_deleted_as_its_own_class() {
    let h = handle();
    let class = |plan: Vec<phidget::native::Action>| match plan[..] {
        [phidget::native::Action::Call(NativeCall::Delete { class, handle })] => {
            assert_eq!(handle, h);
            class
        }
        _ => panic!("not a single delete: {:?}", plan),
    };
    assert_eq!(class(CurrentInput::from(h).teardown(Ok(false))), ChannelClass::CurrentInput);
    assert_eq!(class(DigitalInput::from(h).teardown(Ok(false))), ChannelClass::DigitalInput);
    assert_eq!(class(DigitalOutput::from(h).teardown(Ok(false))), ChannelClass::DigitalOutput);
    assert_eq!(class(Hub::from(h).teardown(Ok(false))), ChannelClass::Hub);
    assert_eq!(class(HumiditySensor::from(h).teardown(Ok(false))), ChannelClass::HumiditySensor);
    assert_eq!(class(PressureSensor::from(h).teardown(Ok(false))), ChannelClass::PressureSensor);
    assert_eq!(class(Stepper::from(h).teardown(Ok(false))), ChannelClass::Stepper);
    assert_eq!(
        class(TemperatureSensor::from(h).teardown(Ok(false))),
        ChannelClass::TemperatureSensor
    );
    assert_eq!(class(VoltageInput::from(h).teardown(Ok(false))), ChannelClass::VoltageInput);
    assert_eq!(class(VoltageOutput::from(h).teardown(Ok(false))), ChannelClass::VoltageOutput);
    assert_eq!(
        class(VoltageRatioInput::from(h).teardown(Ok(false))),
        ChannelClass::VoltageRatioInput
    );
}

#[test]
fn the_properties_of_a_digital_input() {
    let handle = handle();
    let class = ChannelClass::DigitalInput;
    let device = DigitalInput::from(handle);
    assert_eq!(
        device.set_input_mode(InputMode::PNP),
        NativeCall::SetProperty { handle, class, property: Property::InputMode, raw: 2 }
    );
    assert_eq!(
        device.input_mode(),
        NativeCall::GetProperty { handle, class, property: Property::InputMode }
    );
    assert_eq!(
        device.set_power_supply(PowerSupply::V24),
        NativeCall::SetProperty { handle, class, property: Property::PowerSupply, raw: 3 }
    );
    assert_eq!(
        device.power_supply(),
        NativeCall::GetProperty { handle, class, property: Property::PowerSupply }
    );
    assert_eq!(
        device.state(),
        NativeCall::GetProperty { handle, class, property: Property::State }
    );
    assert_eq!(InputMode::from_reply(0, 1), Ok(InputMode::NPN));
    assert_eq!(InputMode::from_reply(0, 9), Err(ReturnCode::UnknownVal));
    assert_eq!(InputMode::from_reply(52, 1), Err(ReturnCode::NotAttached));
}

#[test]
fn the_properties_of_a_digital_output() {
    let handle = handle();
    let class = ChannelClass::DigitalOutput;
    let device = DigitalOutput::from(handle);
    assert_eq!(
        device.set_enable_failsafe(500),
        NativeCall::EnableFailsafe { handle, class, failsafe_ms: 500 }
    );
    assert_eq!(device.set_reset_failsafe(), NativeCall::ResetFailsafe { handle, class });
    assert_eq!(
        device.min_failsafe_time(),
        NativeCall::GetProperty { handle, class, property: Property::MinFailsafeTime }
    );
    assert_eq!(
        device.max_failsafe_time(),
        NativeCall::GetProperty { handle, class, property: Property::MaxFailsafeTime }
    );
    assert_eq!(
        device.led_forward_voltage(),
        NativeCall::GetProperty { handle, class, property: Property::LedForwardVoltage }
    );
    assert_eq!(
        device.set_state(1),
        NativeCall::SetProperty { handle, class, property: Property::State, raw: 1 }
    );
    assert_eq!(
        device.set_state(255),
        NativeCall::SetProperty { handle, class, property: Property::State, raw: 255 }
    );
    assert_eq!(
        device.state(),
        NativeCall::GetProperty { handle, class, property: Property::State }
    );
}

#[test]
fn the_properties_of_a_hub() {
    let handle = handle();
    let hub = Hub::from(handle);
    assert_eq!(
        hub.port_mode(3),
        NativeCall::GetPortProperty { handle, port: 3, property: Property::PortMode }
    );
    assert_eq!(
        hub.set_port_mode(3, HubPortMode::VoltageInput),
        NativeCall::SetPortProperty { handle, port: 3, property: Property::PortMode, raw: 3 }
    );
    assert_eq!(
        hub.is_port_power_enabled(0),
        NativeCall::GetPortProperty { handle, port: 0, property: Property::PortPower }
    );
    assert_eq!(
        hub.enable_port_power(5, true),
        NativeCall::SetPortProperty { handle, port: 5, property: Property::PortPower, raw: 1 }
    );
    assert_eq!(
        hub.enable_port_power(5, false),
        NativeCall::SetPortProperty { handle, port: 5, property: Property::PortPower, raw: 0 }
    );
    assert_eq!(
        hub.enable_port_auto_set_speed(1, true),
        NativeCall::SetPortProperty {
            handle,
            port: 1,
            property: Property::PortAutoSetSpeed,
            raw: 1
        }
    );
    assert_eq!(
        hub.port_supports_auto_set_speed(1),
        NativeCall::GetPortProperty {
            handle,
            port: 1,
            property: Property::PortSupportsAutoSetSpeed
        }
    );
    assert_eq!(
        hub.port_supports_set_speed(1),
        NativeCall::GetPortProperty { handle, port: 1, property: Property::PortSupportsSetSpeed }
    );
    assert_eq!(HubPortMode::from_reply(0, 0), Ok(HubPortMode::Vint));
    assert_eq!(HubPortMode::from_reply(0, 7), Err(ReturnCode::InvalidArg));
    assert_eq!(flag_value(true), 1);
    assert_eq!(flag_value(false), 0);
}

#[test]
fn the_properties_of_a_stepper() {
    let handle = handle();
    let class = ChannelClass::Stepper;
    let stepper = Stepper::from(handle);
    assert_eq!(
        stepper.enable_failsafe(Duration::from_secs(2)),
        Ok(NativeCall::EnableFailsafe { handle, class, failsafe_ms: 2000 })
    );
    assert_eq!(
        stepper.enable_failsafe(Duration::from_millis(1 << 32)),
        Err(ReturnCode::InvalidArg)
    );
    assert_eq!(stepper.reset_failsafe(), NativeCall::ResetFailsafe { handle, class });
    assert_eq!(
        stepper.min_failsafe_time(),
        NativeCall::GetProperty { handle, class, property: Property::MinFailsafeTime }
    );
    assert_eq!(
        stepper.max_failsafe_time(),
        NativeCall::GetProperty { handle, class, property: Property::MaxFailsafeTime }
    );
    assert_eq!(
        stepper.set_control_mode(ControlMode::Run),
        NativeCall::SetProperty { handle, class, property: Property::ControlMode, raw: 1 }
    );
    assert_eq!(
        stepper.control_mode(),
        NativeCall::GetProperty { handle, class, property: Property::ControlMode }
    );
    assert_eq!(
        stepper.set_data_interval(100),
        NativeCall::SetProperty { handle, class, property: Property::DataInterval, raw: 100 }
    );
    assert_eq!(
        stepper.data_interval(),
        NativeCall::GetProperty { handle, class, property: Property::DataInterval }
    );
    assert_eq!(
        stepper.min_data_interval(),
        NativeCall::GetProperty { handle, class, property: Property::MinDataInterval }
    );
    assert_eq!(
        stepper.max_data_interval(),
        NativeCall::GetProperty { handle, class, property: Property::MaxDataInterval }
    );
    assert_eq!(
        stepper.set_engaged(true),
        NativeCall::SetProperty { handle, class, property: Property::Engaged, raw: 1 }
    );
    assert_eq!(
        stepper.set_engaged(false),
        NativeCall::SetProperty { handle, class, property: Property::Engaged, raw: 0 }
    );
    assert_eq!(
        stepper.engaged(),
        NativeCall::GetProperty { handle, class, property: Property::Engaged }
    );
    assert_eq!(
        stepper.is_moving(),
        NativeCall::GetProperty { handle, class, property: Property::IsMoving }
    );
    assert_eq!(stepper.open(), NativeCall::Open { handle });
    assert_eq!(ControlMode::from_reply(0, 0), Ok(ControlMode::Step));
    assert_eq!(ControlMode::from_reply(3, 0), Err(ReturnCode::Timeout));
    assert_eq!(interval_reply(0, 1500), Ok(Duration::from_millis(1500)));
    assert_eq!(interval_reply(20, 1500), Err(ReturnCode::Unsupported));
}

#[test]
fn the_properties_of_a_temperature_sensor() {
    let handle = handle();
    let class = ChannelClass::TemperatureSensor;
    let sensor = TemperatureSensor::from(handle);
    assert_eq!(
        sensor.rtd_type(),
        NativeCall::GetProperty { handle, class, property: Property::RtdType }
    );
    assert_eq!(
        sensor.set_rtd_type(RtdType::Pt1000_3920),
        NativeCall::SetProperty { handle, class, property: Property::RtdType, raw: 4 }
    );
    assert_eq!(
        sensor.rtd_wire_setup(),
        NativeCall::GetProperty { handle, class, property: Property::RtdWireSetup }
    );
    assert_eq!(
        sensor.set_rtd_wire_setup(RtdWireSetup::ThreeWire),
        NativeCall::SetProperty { handle, class, property: Property::RtdWireSetup, raw: 2 }
    );
    assert_eq!(
        sensor.thermocouple_type(),
        NativeCall::GetProperty { handle, class, property: Property::ThermocoupleType }
    );
    assert_eq!(
        sensor.set_thermocouple_type(ThermocoupleType::TypeK),
        NativeCall::SetProperty {
            handle,
            class,
            property: Property::ThermocoupleType,
            raw: 2
        }
    );
    assert_eq!(RtdType::from_reply(0, 1), Ok(RtdType::Pt100_3850));
    assert_eq!(RtdWireSetup::from_reply(0, 5), Err(ReturnCode::InvalidArg));
    assert_eq!(ThermocoupleType::from_reply(0, 3), Ok(ThermocoupleType::TypeE));
}

#[test]
fn a_device_is_made_from_the_answer_to_its_creation() {
    let h = handle();
    let device = DigitalInput::new(0, h).unwrap();
    assert_eq!(device.as_channel(), h);
    assert_eq!(device.handler(phidget::native::Event::StateChange), None);
    assert_eq!(DigitalInput::new(6, h).err(), Some(ReturnCode::NoMemory));
    assert_eq!(DigitalInput::new(3, Handle::null()).err(), Some(ReturnCode::Timeout));
    assert_eq!(DigitalInput::new(999, h).err(), Some(ReturnCode::Unexpected));
    assert_eq!(DigitalInput::new(0, Handle::null()).err(), Some(ReturnCode::NoMemory));
    assert_eq!(Stepper::new(0, Handle::null()).err(), Some(ReturnCode::NoMemory));
    assert_eq!(Hub::new(21, h).err(), Some(ReturnCode::InvalidArg));
    assert_eq!(Hub::new(0, h).unwrap().as_channel(), h);
    assert_eq!(
        phidget::manager::PhidgetManager::new(0, Handle::null()).err(),
        Some(ReturnCode::NoMemory)
    );
    assert_eq!(
        phidget::manager::PhidgetManager::new(5, h).err(),
        Some(ReturnCode::Io)
    );
    assert_eq!(phidget::manager::PhidgetManager::new(0, h).unwrap().as_handle(), h);
}
