//! The capability interface shared by every wrapper of a native handle, the
//! non-owning view of a handle, and the counted handle that a view can be
//! promoted to.

use crate::errors::ReturnCode;
use crate::handle::Handle;
use crate::native::{
    Action, Address, Flag, Identity, Interval, NativeCall, Step, Text, TextCall,
};
use crate::text::{has_nul, native_text};
use crate::timeout::{
    duration_millis, native_millis, spec_native_millis, timeout_millis, PHIDGET_TIMEOUT_DEFAULT,
};
use crate::types::{ChannelClass, DeviceClass, DeviceId};
use std::time::Duration;
use vstd::prelude::*;

verus! {

/// The call that opens a channel and waits for a device, for a wait of `ms`
/// milliseconds: none where the wait does not fit the native 32-bit
/// parameter, which is an invalid argument.
pub open spec fn open_wait_call(handle: Handle, ms: u128) -> Result<NativeCall, ReturnCode> {
    match spec_native_millis(ms) {
        Ok(timeout_ms) => Ok(NativeCall::OpenWaitForAttachment { handle, timeout_ms }),
        Err(e) => Err(e),
    }
}

/// The call that sets the data interval to `ms` milliseconds: none where the
/// interval does not fit the native 32-bit parameter, which is an invalid
/// argument.
pub open spec fn data_interval_call(handle: Handle, ms: u128) -> Result<NativeCall, ReturnCode> {
    match spec_native_millis(ms) {
        Ok(interval_ms) => Ok(NativeCall::SetDataInterval { handle, interval_ms }),
        Err(e) => Err(e),
    }
}

/// Information about a Phidget.
///
/// This information can be gathered piecemeal from any `Phidget`, or
/// collected all at once in one of these objects.
#[derive(Debug, Clone)]
pub struct PhidgetInfo {
    /// The channel name
    pub channel_name: String,
    /// The class of the channel
    pub channel_class: ChannelClass,
    /// The index of the channel on the device
    pub channel: i32,
    /// The name of the device
    pub device_name: String,
    /// The class of the device
    pub device_class: DeviceClass,
    /// The device id
    pub device_id: DeviceId,
    /// The user-defined label stored in the device flash (if any)
    pub device_label: Option<String>,
    /// The serial number of the device.
    /// If the device is part of a VINT, this is the serial number of the VINT hub.
    pub serial_number: i32,
    /// Whether the channel is a hub port itself
    pub is_hub_port_device: bool,
    /// The hub port (if any)
    pub hub_port: Option<i32>,
    /// The SKU (part number) of the Phidget
    pub device_sku: String,
}

/// Addressing properties to find a Phidget.
#[derive(Debug, Clone)]
pub struct PhidgetFilter {
    /// The index of the channel on the device
    pub channel: Option<i32>,
    /// The serial number of the device.
    /// If the device is part of a VINT, this is the serial number of the VINT hub.
    pub serial_number: Option<i32>,
    /// Whether the channel is a hub port itself
    pub is_hub_port_device: Option<bool>,
    /// The hub port (if any)
    pub hub_port: Option<i32>,
    /// The user-defined label stored in the device flash
    pub device_label: Option<String>,
}

impl Default for PhidgetFilter {
    /// The filter that holds no parameter and finds any device.
    fn default() -> (f: PhidgetFilter)
        ensures
            f.channel.is_none(),
            f.serial_number.is_none(),
            f.is_hub_port_device.is_none(),
            f.hub_port.is_none(),
            f.device_label.is_none(),
    {
        PhidgetFilter {
            channel: None,
            serial_number: None,
            is_hub_port_device: None,
            hub_port: None,
            device_label: None,
        }
    }
}

impl PhidgetFilter {
    /// The filter that finds the device of `info` again: every parameter that
    /// the information holds, as it stands there.
    pub fn from(info: PhidgetInfo) -> (f: PhidgetFilter)
        ensures
            f.channel == Some(info.channel),
            f.serial_number == Some(info.serial_number),
            f.is_hub_port_device == Some(info.is_hub_port_device),
            f.hub_port == info.hub_port,
            f.device_label == info.device_label,
    {
        PhidgetFilter {
            channel: Some(info.channel),
            serial_number: Some(info.serial_number),
            is_hub_port_device: Some(info.is_hub_port_device),
            hub_port: info.hub_port,
            device_label: info.device_label,
        }
    }
}

/// The sequence that sets the parameters of a filter, with the text that it
/// takes.
#[derive(Debug, Clone, PartialEq, Eq)]
pub struct FilterPlan {
    /// The steps, to be carried out in order until one fails.
    pub steps: Vec<Step>,
    /// The label to hand over at the step that sets the label, if the plan
    /// has that step.
    pub label: Option<String>,
}

/// The label that is handed to the native library when the parameters of
/// `filter` are set: the filter's own label, if it has one that can be handed
/// over.
pub open spec fn filter_label(filter: PhidgetFilter) -> Option<String> {
    match filter.device_label {
        Some(label) => if has_nul(label@) {
            None
        } else {
            Some(label)
        },
        None => None,
    }
}

/// The steps that set the parameters of `filter` on `handle`: one for each
/// parameter that the filter holds, in the order channel, serial number, hub
/// port device, hub port, label. The step that sets the label takes the text
/// that `filter_label` gives. A label that holds the NUL character cannot be
/// handed over; its step fails with `Invalid`.
pub open spec fn filter_plan(handle: Handle, filter: PhidgetFilter) -> Seq<Step> {
    (match filter.channel {
        Some(value) => seq![
            Step::Call(NativeCall::SetAddress { handle, address: Address::Channel, value }),
        ],
        None => seq![],
    }) + (match filter.serial_number {
        Some(value) => seq![
            Step::Call(NativeCall::SetAddress { handle, address: Address::SerialNumber, value }),
        ],
        None => seq![],
    }) + (match filter.is_hub_port_device {
        Some(on) => seq![
            Step::Call(NativeCall::SetFlag { handle, flag: Flag::IsHubPortDevice, on }),
        ],
        None => seq![],
    }) + (match filter.hub_port {
        Some(value) => seq![
            Step::Call(NativeCall::SetAddress { handle, address: Address::HubPort, value }),
        ],
        None => seq![],
    }) + (match filter.device_label {
        Some(label) => if has_nul(label@) {
            seq![Step::Fail(ReturnCode::Invalid)]
        } else {
            seq![Step::Call(NativeCall::SetDeviceLabel { handle })]
        },
        None => seq![],
    })
}

/// What every wrapper of a native handle can do.
///
/// Each method of the interface decides one call into the native library and
/// hands it out; none makes the call. A method that can reject its arguments
/// does so before any call is decided.
pub trait Phidget {
    /// The handle that the wrapper stands for.
    spec fn handle(&self) -> Handle;

    /// Get the handle of the device.
    fn as_handle(&self) -> (h: Handle)
        ensures
            h == self.handle(),
    ;

    /// Attempt to open the channel.
    fn open(&self) -> (call: NativeCall)
        ensures
            call == (NativeCall::Open { handle: self.handle() }),
    {
        NativeCall::Open { handle: self.as_handle() }
    }

    /// Attempt to open the channel, waiting `ms` milliseconds at most for a
    /// device. A wait that does not fit in 32 bits is rejected with
    /// `InvalidArg`, and no call is made.
    fn open_wait_millis(&self, ms: u128) -> (r: Result<NativeCall, ReturnCode>)
        ensures
            r == open_wait_call(self.handle(), ms),
            ms > u32::MAX ==> r == Err::<NativeCall, ReturnCode>(ReturnCode::InvalidArg),
    {
        match native_millis(ms) {
            Ok(timeout_ms) => Ok(
                NativeCall::OpenWaitForAttachment { handle: self.as_handle(), timeout_ms },
            ),
            Err(e) => Err(e),
        }
    }

    /// Attempt to open the channel, waiting a limited time for a device. The
    /// longest wait is 2^32 - 1 milliseconds, some 49.7 days; a longer one is
    /// rejected with `InvalidArg`, and no call is made.
    fn open_wait(&self, to: Duration) -> (r: Result<NativeCall, ReturnCode>)
        ensures
            r == open_wait_call(self.handle(), duration_millis(to)),
            duration_millis(to) > u32::MAX ==> r == Err::<NativeCall, ReturnCode>(
                ReturnCode::InvalidArg,
            ),
    {
        match timeout_millis(to) {
            Ok(timeout_ms) => Ok(
                NativeCall::OpenWaitForAttachment { handle: self.as_handle(), timeout_ms },
            ),
            Err(e) => Err(e),
        }
    }

    /// Attempt to open the channel, waiting the default time for a device.
    fn open_wait_default(&self) -> (call: NativeCall)
        ensures
            call == (NativeCall::OpenWaitForAttachment {
                handle: self.handle(),
                timeout_ms: PHIDGET_TIMEOUT_DEFAULT,
            }),
    {
        NativeCall::OpenWaitForAttachment {
            handle: self.as_handle(),
            timeout_ms: PHIDGET_TIMEOUT_DEFAULT,
        }
    }

    /// Closes the channel.
    fn close(&self) -> (call: NativeCall)
        ensures
            call == (NativeCall::Close { handle: self.handle() }),
    {
        NativeCall::Close { handle: self.as_handle() }
    }

    /// Determines if the channel is open.
    fn is_open(&self) -> (call: NativeCall)
        ensures
            call == (NativeCall::GetFlag { handle: self.handle(), flag: Flag::IsOpen }),
    {
        NativeCall::GetFlag { handle: self.as_handle(), flag: Flag::IsOpen }
    }

    /// Determines if the channel is open and attached to a device.
    fn is_attached(&self) -> (call: NativeCall)
        ensures
            call == (NativeCall::GetFlag { handle: self.handle(), flag: Flag::Attached }),
    {
        NativeCall::GetFlag { handle: self.as_handle(), flag: Flag::Attached }
    }

    /// Determines if the channel is open locally (not over a network).
    fn is_local(&self) -> (call: NativeCall)
        ensures
            call == (NativeCall::GetFlag { handle: self.handle(), flag: Flag::IsLocal }),
    {
        NativeCall::GetFlag { handle: self.as_handle(), flag: Flag::IsLocal }
    }

    /// Determines if the channel is open remotely (over a network).
    fn is_remote(&self) -> (call: NativeCall)
        ensures
            call == (NativeCall::GetFlag { handle: self.handle(), flag: Flag::IsRemote }),
    {
        NativeCall::GetFlag { handle: self.as_handle(), flag: Flag::IsRemote }
    }

    /// Determines whether this channel is a VINT hub port channel, or part of
    /// a VINT device attached to a hub port.
    fn is_hub_port_device(&self) -> (call: NativeCall)
        ensures
            call == (NativeCall::GetFlag { handle: self.handle(), flag: Flag::IsHubPortDevice }),
    {
        NativeCall::GetFlag { handle: self.as_handle(), flag: Flag::IsHubPortDevice }
    }

    /// Set true to open the channel locally (not over a network).
    fn set_local(&self, local: bool) -> (call: NativeCall)
        ensures
            call == (NativeCall::SetFlag { handle: self.handle(), flag: Flag::IsLocal, on: local }),
    {
        NativeCall::SetFlag { handle: self.as_handle(), flag: Flag::IsLocal, on: local }
    }

    /// Set true to open the channel remotely (over a network).
    fn set_remote(&self, rem: bool) -> (call: NativeCall)
        ensures
            call == (NativeCall::SetFlag { handle: self.handle(), flag: Flag::IsRemote, on: rem }),
    {
        NativeCall::SetFlag { handle: self.as_handle(), flag: Flag::IsRemote, on: rem }
    }

    /// Specify whether this channel should be opened on a VINT hub port
    /// directly, or on a VINT device attached to a hub port. This must be set
    /// before the channel is opened.
    fn set_is_hub_port_device(&self, on: bool) -> (call: NativeCall)
        ensures
            call == (NativeCall::SetFlag {
                handle: self.handle(),
                flag: Flag::IsHubPortDevice,
                on,
            }),
    {
        NativeCall::SetFlag { handle: self.as_handle(), flag: Flag::IsHubPortDevice, on }
    }

    /// Gets the index of the port on the VINT hub to which the channel is
    /// attached.
    fn hub_port(&self) -> (call: NativeCall)
        ensures
            call == (NativeCall::GetAddress { handle: self.handle(), address: Address::HubPort }),
    {
        NativeCall::GetAddress { handle: self.as_handle(), address: Address::HubPort }
    }

    /// Gets the index of the channel on the device.
    fn channel(&self) -> (call: NativeCall)
        ensures
            call == (NativeCall::GetAddress { handle: self.handle(), address: Address::Channel }),
    {
        NativeCall::GetAddress { handle: self.as_handle(), address: Address::Channel }
    }

    /// Gets the serial number of the device. If the channel is part of a VINT
    /// device, this is the serial number of the VINT hub to which the device is
    /// attached.
    fn serial_number(&self) -> (call: NativeCall)
        ensures
            call == (NativeCall::GetAddress {
                handle: self.handle(),
                address: Address::SerialNumber,
            }),
    {
        NativeCall::GetAddress { handle: self.as_handle(), address: Address::SerialNumber }
    }

    /// Sets the index of the port on the VINT hub to open; `PHIDGET_HUBPORT_ANY`
    /// opens the channel on any port. This must be set before the channel is
    /// opened.
    fn set_hub_port(&self, port: i32) -> (call: NativeCall)
        ensures
            call == (NativeCall::SetAddress {
                handle: self.handle(),
                address: Address::HubPort,
                value: port,
            }),
    {
        NativeCall::SetAddress { handle: self.as_handle(), address: Address::HubPort, value: port }
    }

    /// Sets the channel index to be opened; `PHIDGET_CHANNEL_ANY` opens any
    /// channel of the device. This must be set before the channel is opened.
    fn set_channel(&self, chan: i32) -> (call: NativeCall)
        ensures
            call == (NativeCall::SetAddress {
                handle: self.handle(),
                address: Address::Channel,
                value: chan,
            }),
    {
        NativeCall::SetAddress { handle: self.as_handle(), address: Address::Channel, value: chan }
    }

    /// Sets the device serial number to be opened; `PHIDGET_SERIALNUMBER_ANY`
    /// opens any. This must be set before the channel is opened.
    fn set_serial_number(&self, sn: i32) -> (call: NativeCall)
        ensures
            call == (NativeCall::SetAddress {
                handle: self.handle(),
                address: Address::SerialNumber,
                value: sn,
            }),
    {
        NativeCall::SetAddress {
            handle: self.as_handle(),
            address: Address::SerialNumber,
            value: sn,
        }
    }

    /// Gets the data interval for the device, if supported.
    fn data_interval(&self) -> (call: NativeCall)
        ensures
            call == (NativeCall::GetDataInterval {
                handle: self.handle(),
                interval: Interval::Current,
            }),
    {
        NativeCall::GetDataInterval { handle: self.as_handle(), interval: Interval::Current }
    }

    /// Gets the minimum data interval for the device, if supported.
    fn min_data_interval(&self) -> (call: NativeCall)
        ensures
            call == (NativeCall::GetDataInterval {
                handle: self.handle(),
                interval: Interval::Minimum,
            }),
    {
        NativeCall::GetDataInterval { handle: self.as_handle(), interval: Interval::Minimum }
    }

    /// Gets the maximum data interval for the device, if supported.
    fn max_data_interval(&self) -> (call: NativeCall)
        ensures
            call == (NativeCall::GetDataInterval {
                handle: self.handle(),
                interval: Interval::Maximum,
            }),
    {
        NativeCall::GetDataInterval { handle: self.as_handle(), interval: Interval::Maximum }
    }

    /// Gets the class of the channel.
    fn channel_class(&self) -> (call: NativeCall)
        ensures
            call == (NativeCall::GetIdentity {
                handle: self.handle(),
                identity: Identity::ChannelClass,
            }),
    {
        NativeCall::GetIdentity { handle: self.as_handle(), identity: Identity::ChannelClass }
    }

    /// Gets the class of the device.
    fn device_class(&self) -> (call: NativeCall)
        ensures
            call == (NativeCall::GetIdentity {
                handle: self.handle(),
                identity: Identity::DeviceClass,
            }),
    {
        NativeCall::GetIdentity { handle: self.as_handle(), identity: Identity::DeviceClass }
    }

    /// Gets the device id.
    fn device_id(&self) -> (call: NativeCall)
        ensures
            call == (NativeCall::GetIdentity {
                handle: self.handle(),
                identity: Identity::DeviceId,
            }),
    {
        NativeCall::GetIdentity { handle: self.as_handle(), identity: Identity::DeviceId }
    }

    /// Get the name of the channel class.
    fn channel_class_name(&self) -> (call: NativeCall)
        ensures
            call == (NativeCall::GetText { handle: self.handle(), text: Text::ChannelClassName }),
    {
        NativeCall::GetText { handle: self.as_handle(), text: Text::ChannelClassName }
    }

    /// Get the channel's name.
    fn channel_name(&self) -> (call: NativeCall)
        ensures
            call == (NativeCall::GetText { handle: self.handle(), text: Text::ChannelName }),
    {
        NativeCall::GetText { handle: self.as_handle(), text: Text::ChannelName }
    }

    /// Get the name of the device class.
    fn device_class_name(&self) -> (call: NativeCall)
        ensures
            call == (NativeCall::GetText { handle: self.handle(), text: Text::DeviceClassName }),
    {
        NativeCall::GetText { handle: self.as_handle(), text: Text::DeviceClassName }
    }

    /// Get the name of the device.
    fn device_name(&self) -> (call: NativeCall)
        ensures
            call == (NativeCall::GetText { handle: self.handle(), text: Text::DeviceName }),
    {
        NativeCall::GetText { handle: self.as_handle(), text: Text::DeviceName }
    }

    /// Gets the user-defined label that was burned into the device's flash
    /// memory.
    fn device_label(&self) -> (call: NativeCall)
        ensures
            call == (NativeCall::GetText { handle: self.handle(), text: Text::DeviceLabel }),
    {
        NativeCall::GetText { handle: self.as_handle(), text: Text::DeviceLabel }
    }

    /// Gets the SKU (part number) of the Phidget to which the channel is
    /// attached.
    fn device_sku(&self) -> (call: NativeCall)
        ensures
            call == (NativeCall::GetText { handle: self.handle(), text: Text::DeviceSku }),
    {
        NativeCall::GetText { handle: self.as_handle(), text: Text::DeviceSku }
    }

    /// Get the number of channels of the specified class on the device.
    fn device_channel_count(&self, cls: ChannelClass) -> (call: NativeCall)
        ensures
            call == (NativeCall::GetDeviceChannelCount { handle: self.handle(), class: cls }),
    {
        NativeCall::GetDeviceChannelCount { handle: self.as_handle(), class: cls }
    }

    /// Sets the data interval to `ms` milliseconds. An interval that does not
    /// fit in 32 bits is rejected with `InvalidArg`, and no call is made.
    fn set_data_interval_millis(&self, ms: u128) -> (r: Result<NativeCall, ReturnCode>)
        ensures
            r == data_interval_call(self.handle(), ms),
            ms > u32::MAX ==> r == Err::<NativeCall, ReturnCode>(ReturnCode::InvalidArg),
    {
        match native_millis(ms) {
            Ok(interval_ms) => Ok(
                NativeCall::SetDataInterval { handle: self.as_handle(), interval_ms },
            ),
            Err(e) => Err(e),
        }
    }

    /// Sets the data interval for the device, if supported. The value should
    /// be in the range of the minimum and maximum data interval. An interval
    /// whose milliseconds do not fit in 32 bits is rejected with `InvalidArg`,
    /// and no call is made.
    fn set_data_interval(&self, interval: Duration) -> (r: Result<NativeCall, ReturnCode>)
        ensures
            r == data_interval_call(self.handle(), duration_millis(interval)),
    {
        match timeout_millis(interval) {
            Ok(interval_ms) => Ok(
                NativeCall::SetDataInterval { handle: self.as_handle(), interval_ms },
            ),
            Err(e) => Err(e),
        }
    }

    /// Sets the user-defined label to use to search for the device. This does
    /// not write a new label to the device's flash memory. The call goes with
    /// the label as its one text. A label that holds the NUL character is
    /// rejected with `Invalid`, and no call is made.
    fn set_device_label(&self, label: &str) -> (r: Result<TextCall, ReturnCode>)
        ensures
            has_nul(label@) ==> r == Err::<TextCall, ReturnCode>(ReturnCode::Invalid),
            !has_nul(label@) ==> r is Ok && r->Ok_0.says(
                NativeCall::SetDeviceLabel { handle: self.handle() },
                seq![label@],
            ),
    {
        match native_text(label) {
            Ok(_) => {
                let mut texts: Vec<String> = Vec::new();
                texts.push(label.to_owned());
                Ok(
                    TextCall {
                        call: NativeCall::SetDeviceLabel { handle: self.as_handle() },
                        texts,
                    },
                )
            },
            Err(e) => Err(e),
        }
    }

    /// Write the user-defined label to the flash memory of the device. The
    /// call goes with the label as its one text. A label that holds the NUL
    /// character is rejected with `Invalid`, and no call is made.
    fn write_device_label(&self, label: &str) -> (r: Result<TextCall, ReturnCode>)
        ensures
            has_nul(label@) ==> r == Err::<TextCall, ReturnCode>(ReturnCode::Invalid),
            !has_nul(label@) ==> r is Ok && r->Ok_0.says(
                NativeCall::WriteDeviceLabel { handle: self.handle() },
                seq![label@],
            ),
    {
        match native_text(label) {
            Ok(_) => {
                let mut texts: Vec<String> = Vec::new();
                texts.push(label.to_owned());
                Ok(
                    TextCall {
                        call: NativeCall::WriteDeviceLabel { handle: self.as_handle() },
                        texts,
                    },
                )
            },
            Err(e) => Err(e),
        }
    }

    /// The sequence of queries that gathers the full information of the
    /// phidget: one query for each part, in the order of the parts. The
    /// sequence ends at the first query that fails; only the query for the
    /// hub port is tried and may fail.
    fn info(&self) -> (plan: Vec<Step>)
        ensures
            plan@ == info_plan(self.handle()),
    {
        let handle = self.as_handle();
        let mut plan: Vec<Step> = Vec::new();
        plan.push(Step::Call(NativeCall::GetText { handle, text: Text::ChannelName }));
        plan.push(Step::Call(NativeCall::GetIdentity { handle, identity: Identity::ChannelClass }));
        plan.push(Step::Call(NativeCall::GetAddress { handle, address: Address::Channel }));
        plan.push(Step::Call(NativeCall::GetText { handle, text: Text::DeviceName }));
        plan.push(Step::Call(NativeCall::GetIdentity { handle, identity: Identity::DeviceClass }));
        plan.push(Step::Call(NativeCall::GetIdentity { handle, identity: Identity::DeviceId }));
        plan.push(Step::Call(NativeCall::GetText { handle, text: Text::DeviceLabel }));
        plan.push(Step::Call(NativeCall::GetAddress { handle, address: Address::SerialNumber }));
        plan.push(Step::Call(NativeCall::GetFlag { handle, flag: Flag::IsHubPortDevice }));
        plan.push(Step::Try(NativeCall::GetAddress { handle, address: Address::HubPort }));
        plan.push(Step::Call(NativeCall::GetText { handle, text: Text::DeviceSku }));
        proof {
            assert(plan@ =~= info_plan(self.handle()));
        }
        plan
    }

    /// Sets all the searchable parameters to find a device in one sequence:
    /// one step for each parameter that the filter holds, in the order
    /// channel, serial number, hub port device, hub port, label. The sequence
    /// ends at the first step that fails.
    ///
    /// The label goes with the plan: it is the text to hand over at the step
    /// that sets the label, which is the only step that takes a text.
    fn set_filter(&self, filter: &PhidgetFilter) -> (plan: FilterPlan)
        ensures
            plan.steps@ == filter_plan(self.handle(), *filter),
            plan.label == filter_label(*filter),
    {
        let handle = self.as_handle();
        let mut label_text: Option<String> = None;
        let mut plan: Vec<Step> = Vec::new();
        if let Some(chan) = filter.channel {
            plan.push(
                Step::Call(
                    NativeCall::SetAddress { handle, address: Address::Channel, value: chan },
                ),
            );
        }
        if let Some(sn) = filter.serial_number {
            plan.push(
                Step::Call(
                    NativeCall::SetAddress { handle, address: Address::SerialNumber, value: sn },
                ),
            );
        }
        if let Some(ihpd) = filter.is_hub_port_device {
            plan.push(
                Step::Call(
                    NativeCall::SetFlag { handle, flag: Flag::IsHubPortDevice, on: ihpd },
                ),
            );
        }
        if let Some(hub_port) = filter.hub_port {
            plan.push(
                Step::Call(
                    NativeCall::SetAddress { handle, address: Address::HubPort, value: hub_port },
                ),
            );
        }
        if let Some(label) = &filter.device_label {
            match native_text(label.as_str()) {
                Ok(_) => {
                    plan.push(Step::Call(NativeCall::SetDeviceLabel { handle }));
                    label_text = Some(label.clone());
                },
                Err(e) => plan.push(Step::Fail(e)),
            }
        }
        proof {
            assert(plan@ =~= filter_plan(self.handle(), *filter));
        }
        FilterPlan { steps: plan, label: label_text }
    }
}

impl PhidgetInfo {
    /// Gathers the full information from the answers to the single queries
    /// of the information sequence.
    ///
    /// The first failure, in the order of the parameters, is the failure of
    /// the whole; only the hub port may fail, and is then left out.
    pub fn from_replies(
        channel_name: Result<String, ReturnCode>,
        channel_class: Result<ChannelClass, ReturnCode>,
        channel: Result<i32, ReturnCode>,
        device_name: Result<String, ReturnCode>,
        device_class: Result<DeviceClass, ReturnCode>,
        device_id: Result<DeviceId, ReturnCode>,
        device_label: Result<Option<String>, ReturnCode>,
        serial_number: Result<i32, ReturnCode>,
        is_hub_port_device: Result<bool, ReturnCode>,
        hub_port: Result<i32, ReturnCode>,
        device_sku: Result<String, ReturnCode>,
    ) -> (r: Result<PhidgetInfo, ReturnCode>)
        ensures
            r is Err <==> (channel_name is Err || channel_class is Err || channel is Err
                || device_name is Err || device_class is Err || device_id is Err
                || device_label is Err || serial_number is Err || is_hub_port_device is Err
                || device_sku is Err),
            r matches Err(e) ==> Some(e) == first_failure(
                seq![
                    failure(channel_name),
                    failure(channel_class),
                    failure(channel),
                    failure(device_name),
                    failure(device_class),
                    failure(device_id),
                    failure(device_label),
                    failure(serial_number),
                    failure(is_hub_port_device),
                    failure(device_sku),
                ],
            ),
            r matches Ok(info) ==> {
                &&& Ok::<String, ReturnCode>(info.channel_name) == channel_name
                &&& Ok::<ChannelClass, ReturnCode>(info.channel_class) == channel_class
                &&& Ok::<i32, ReturnCode>(info.channel) == channel
                &&& Ok::<String, ReturnCode>(info.device_name) == device_name
                &&& Ok::<DeviceClass, ReturnCode>(info.device_class) == device_class
                &&& Ok::<DeviceId, ReturnCode>(info.device_id) == device_id
                &&& Ok::<Option<String>, ReturnCode>(info.device_label) == device_label
                &&& Ok::<i32, ReturnCode>(info.serial_number) == serial_number
                &&& Ok::<bool, ReturnCode>(info.is_hub_port_device) == is_hub_port_device
                &&& info.hub_port == (match hub_port {
                    Ok(port) => Some(port),
                    Err(_) => None,
                })
                &&& Ok::<String, ReturnCode>(info.device_sku) == device_sku
            },
    {
        proof {
            reveal_with_fuel(first_failure, 11);
        }
        let channel_name = match channel_name {
            Ok(v) => v,
            Err(e) => {
                return Err(e);
            },
        };
        let channel_class = match channel_class {
            Ok(v) => v,
            Err(e) => {
                return Err(e);
            },
        };
        let channel = match channel {
            Ok(v) => v,
            Err(e) => {
                return Err(e);
            },
        };
        let device_name = match device_name {
            Ok(v) => v,
            Err(e) => {
                return Err(e);
            },
        };
        let device_class = match device_class {
            Ok(v) => v,
            Err(e) => {
                return Err(e);
            },
        };
        let device_id = match device_id {
            Ok(v) => v,
            Err(e) => {
                return Err(e);
            },
        };
        let device_label = match device_label {
            Ok(v) => v,
            Err(e) => {
                return Err(e);
            },
        };
        let serial_number = match serial_number {
            Ok(v) => v,
            Err(e) => {
                return Err(e);
            },
        };
        let is_hub_port_device = match is_hub_port_device {
            Ok(v) => v,
            Err(e) => {
                return Err(e);
            },
        };
        let hub_port = match hub_port {
            Ok(port) => Some(port),
            Err(_) => None,
        };
        let device_sku = match device_sku {
            Ok(v) => v,
            Err(e) => {
                return Err(e);
            },
        };
        Ok(
            PhidgetInfo {
                channel_name,
                channel_class,
                channel,
                device_name,
                device_class,
                device_id,
                device_label,
                serial_number,
                is_hub_port_device,
                hub_port,
                device_sku,
            },
        )
    }
}

/// The queries that gather the full information of the phidget behind
/// `handle`, in the order of the parts of the information: channel name,
/// channel class, channel, device name, device class, device id, label,
/// serial number, hub port device, hub port, part number. Only the hub port
/// may fail.
pub open spec fn info_plan(handle: Handle) -> Seq<Step> {
    seq![
        Step::Call(NativeCall::GetText { handle, text: Text::ChannelName }),
        Step::Call(NativeCall::GetIdentity { handle, identity: Identity::ChannelClass }),
        Step::Call(NativeCall::GetAddress { handle, address: Address::Channel }),
        Step::Call(NativeCall::GetText { handle, text: Text::DeviceName }),
        Step::Call(NativeCall::GetIdentity { handle, identity: Identity::DeviceClass }),
        Step::Call(NativeCall::GetIdentity { handle, identity: Identity::DeviceId }),
        Step::Call(NativeCall::GetText { handle, text: Text::DeviceLabel }),
        Step::Call(NativeCall::GetAddress { handle, address: Address::SerialNumber }),
        Step::Call(NativeCall::GetFlag { handle, flag: Flag::IsHubPortDevice }),
        Step::Try(NativeCall::GetAddress { handle, address: Address::HubPort }),
        Step::Call(NativeCall::GetText { handle, text: Text::DeviceSku }),
    ]
}

/// The code with which the sequence of `info_plan` goes on after its query
/// at `index` was answered with `code`, the number `raw` and a text or none:
/// the code itself where it names a failure; else the code of the failure to
/// read the answer, which is `NoMemory` for a name that is missing and
/// `InvalidArg` for a class or an id that the number does not name; else
/// zero.
pub open spec fn spec_info_answer(index: int, code: u32, raw: u32, has_text: bool) -> u32 {
    if code != 0 {
        code
    } else if (index == 0 || index == 3) && !has_text {
        ReturnCode::NoMemory.spec_code()
    } else if index == 1 && ChannelClass::of_code(raw) is Err {
        ReturnCode::InvalidArg.spec_code()
    } else if index == 4 && DeviceClass::of_code(raw) is Err {
        ReturnCode::InvalidArg.spec_code()
    } else if index == 5 && DeviceId::of_code(raw) is Err {
        ReturnCode::InvalidArg.spec_code()
    } else {
        0
    }
}

/// Reads the answer to one query of the information sequence for the code
/// with which the sequence goes on: a failure of the call, or a failure to
/// read its answer, ends the sequence as `next_step` rules.
pub fn info_answer(index: usize, code: u32, raw: u32, has_text: bool) -> (c: u32)
    ensures
        c == spec_info_answer(index as int, code, raw, has_text),
{
    if code != 0 {
        code
    } else if (index == 0 || index == 3) && !has_text {
        ReturnCode::NoMemory.code()
    } else if index == 1 && ChannelClass::try_from(raw).is_err() {
        ReturnCode::InvalidArg.code()
    } else if index == 4 && DeviceClass::try_from(raw).is_err() {
        ReturnCode::InvalidArg.code()
    } else if index == 5 && DeviceId::try_from(raw).is_err() {
        ReturnCode::InvalidArg.code()
    } else {
        0
    }
}

/// The failure of an answer, if it is one.
pub open spec fn failure<T>(answer: Result<T, ReturnCode>) -> Option<ReturnCode> {
    match answer {
        Ok(_) => None,
        Err(e) => Some(e),
    }
}

/// The first failure in a row of answers, if there is one.
pub open spec fn first_failure(failures: Seq<Option<ReturnCode>>) -> Option<ReturnCode>
    decreases failures.len(),
{
    if failures.len() == 0 {
        None
    } else if failures[0].is_some() {
        failures[0]
    } else {
        first_failure(failures.drop_first())
    }
}

/// Whether the teardown of a channel that was made by a create call closes
/// the channel first, given what the probe for "is it open?" answered: it
/// does unless the probe said plainly that the channel is not open.
pub open spec fn closes_first(probe: Result<bool, ReturnCode>) -> bool {
    probe != Ok::<bool, ReturnCode>(false)
}

/// A non-owning reference to a generic phidget.
///
/// This wraps a handle that might belong to any type of device. It can be
/// queried for information and promoted to a counted handle.
///
/// It owns nothing: giving it up makes no call into the native library. It is
/// typically made for the handle that the native library passes to a
/// callback.
#[derive(Debug)]
pub struct PhidgetRef {
    handle: Handle,
}

impl PhidgetRef {
    /// Creates a new, generic phidget for the handle.
    pub fn new(phid: Handle) -> (r: PhidgetRef)
        ensures
            r.handle() == phid,
    {
        PhidgetRef { handle: phid }
    }

    /// Creates a new, generic phidget for the handle.
    pub fn from(phid: Handle) -> (r: PhidgetRef)
        ensures
            r.handle() == phid,
    {
        Self::new(phid)
    }

    /// The call that takes a counted reference to what the view refers to.
    /// It is the first half of a promotion.
    pub fn retain(&self) -> (call: NativeCall)
        ensures
            call == (NativeCall::Retain { handle: self.handle() }),
    {
        NativeCall::Retain { handle: self.handle }
    }

    /// Gives the view up. Nothing is owed: the plan is empty, so neither a
    /// delete nor a release reaches the native library.
    pub fn teardown(self) -> (plan: Vec<Action>)
        ensures
            plan@ == Seq::<Action>::empty(),
    {
        Vec::new()
    }
}

impl Phidget for PhidgetRef {
    closed spec fn handle(&self) -> Handle {
        self.handle
    }

    fn as_handle(&self) -> (h: Handle) {
        self.handle
    }
}

/// A generic phidget.
///
/// This wraps a handle that might belong to any type of device. It is made
/// from a `PhidgetRef` by promotion, and shares the native object through the
/// counted reference that the promotion took; giving it up returns that
/// reference.
#[derive(Debug)]
pub struct GenericPhidget {
    handle: Handle,
}

impl GenericPhidget {
    /// Completes the promotion of a view, given the code with which the
    /// native library answered the retain call: on success the counted handle
    /// for the same native object, on failure the failure. The view itself is
    /// unaffected either way.
    pub fn try_from(phid: &PhidgetRef, code: u32) -> (r: Result<GenericPhidget, ReturnCode>)
        ensures
            match ReturnCode::spec_result(code) {
                Ok(_) => r is Ok && r->Ok_0.handle() == phid.handle(),
                Err(e) => r is Err && r->Err_0 == e,
            },
    {
        match ReturnCode::result(code) {
            Ok(_) => Ok(GenericPhidget { handle: phid.handle }),
            Err(e) => Err(e),
        }
    }

    /// The plan of a counted handle's teardown: the close, if the probe said
    /// that the channel is open, and then the release of the counted
    /// reference.
    pub open spec fn teardown_plan(handle: Handle, probe: Result<bool, ReturnCode>) -> Seq<
        Action,
    > {
        (if probe == Ok::<bool, ReturnCode>(true) {
            seq![Action::Call(NativeCall::Close { handle })]
        } else {
            seq![]
        }) + seq![Action::Call(NativeCall::Release { handle })]
    }

    /// Gives the counted handle up, given what the probe for "is it open?"
    /// answered. The channel is closed first exactly when the probe said that
    /// it is open; then the counted reference is returned. The native object
    /// is never deleted from here.
    pub fn teardown(self, probe: Result<bool, ReturnCode>) -> (plan: Vec<Action>)
        ensures
            plan@ == Self::teardown_plan(self.handle(), probe),
    {
        let mut plan: Vec<Action> = Vec::new();
        match probe {
            Ok(true) => {
                plan.push(Action::Call(NativeCall::Close { handle: self.handle }));
            },
            _ => {},
        }
        plan.push(Action::Call(NativeCall::Release { handle: self.handle }));
        proof {
            assert(plan@ =~= Self::teardown_plan(self.handle(), probe));
        }
        plan
    }
}

impl Phidget for GenericPhidget {
    closed spec fn handle(&self) -> Handle {
        self.handle
    }

    fn as_handle(&self) -> (h: Handle) {
        self.handle
    }
}

} // verus!
