//! The boundary to the native library, as plain values.
//!
//! Nothing in this crate calls the native library. An operation decides which
//! entry point is to be called and with which arguments, and hands that
//! decision out as a [`NativeCall`]; whoever performs the call hands the
//! native return code back, and the operation's second half turns it into the
//! result. A call that takes texts is handed out as a [`TextCall`], which
//! holds the texts to hand over.

use crate::errors::ReturnCode;
use crate::handle::{Context, Handle};
use crate::types::ChannelClass;
use vstd::prelude::*;

verus! {

/// The kinds of event for which a callback can be registered on a handle.
#[derive(Debug, Clone, Copy, PartialEq, Eq, Hash, Structural)]
pub enum Event {
    /// The channel was attached to a device.
    Attach,
    /// The channel lost its device.
    Detach,
    /// A digital input changed state.
    StateChange,
    /// A current input measured a new value.
    CurrentChange,
    /// A humidity sensor measured a new value.
    HumidityChange,
    /// A pressure sensor measured a new value.
    PressureChange,
    /// A temperature sensor measured a new value.
    TemperatureChange,
    /// A voltage input measured a new value.
    VoltageChange,
    /// A voltage ratio input measured a new value.
    VoltageRatioChange,
    /// A stepper reached a new position.
    PositionChange,
    /// A stepper changed velocity.
    VelocityChange,
    /// A stepper stopped.
    Stopped,
    /// A device manager saw a device arrive.
    DeviceAttach,
    /// A device manager saw a device leave.
    DeviceDetach,
}

/// The yes-or-no properties of a channel.
#[derive(Debug, Clone, Copy, PartialEq, Eq, Hash, Structural)]
pub enum Flag {
    /// The channel is open.
    IsOpen,
    /// The channel is open and attached to a device.
    Attached,
    /// The channel is opened locally, not over a network.
    IsLocal,
    /// The channel is opened over a network.
    IsRemote,
    /// The channel is a port of a VINT hub itself.
    IsHubPortDevice,
}

/// The signed integer properties by which a channel is addressed.
#[derive(Debug, Clone, Copy, PartialEq, Eq, Hash, Structural)]
pub enum Address {
    /// The index of the channel on its device.
    Channel,
    /// The serial number of the device.
    SerialNumber,
    /// The index of the port on the VINT hub.
    HubPort,
}

/// The data intervals of a channel, in milliseconds.
#[derive(Debug, Clone, Copy, PartialEq, Eq, Hash, Structural)]
pub enum Interval {
    /// The interval in use.
    Current,
    /// The smallest interval that the device supports.
    Minimum,
    /// The largest interval that the device supports.
    Maximum,
}

/// The identity of what a channel is attached to.
#[derive(Debug, Clone, Copy, PartialEq, Eq, Hash, Structural)]
pub enum Identity {
    /// The class of the channel.
    ChannelClass,
    /// The class of the device.
    DeviceClass,
    /// The model of the device.
    DeviceId,
}

/// The texts that the native library reports of a channel.
#[derive(Debug, Clone, Copy, PartialEq, Eq, Hash, Structural)]
pub enum Text {
    /// The name of the channel's class.
    ChannelClassName,
    /// The name of the channel.
    ChannelName,
    /// The name of the device's class.
    DeviceClassName,
    /// The name of the device.
    DeviceName,
    /// The label stored in the device's flash memory.
    DeviceLabel,
    /// The part number of the device.
    DeviceSku,
}

/// The properties of single device kinds that are whole numbers, names or
/// yes-or-no values. A name goes as its native integer, and yes as one.
#[derive(Debug, Clone, Copy, PartialEq, Eq, Hash, Structural)]
pub enum Property {
    /// The input mode of a digital input.
    InputMode,
    /// The power supply of a digital input.
    PowerSupply,
    /// The state of a digital input or output.
    State,
    /// The shortest failsafe time, in milliseconds.
    MinFailsafeTime,
    /// The longest failsafe time, in milliseconds.
    MaxFailsafeTime,
    /// The forward voltage of the LED on a digital output.
    LedForwardVoltage,
    /// The mode of a hub port.
    PortMode,
    /// Whether a hub port is powered.
    PortPower,
    /// Whether a hub port sets its speed by itself.
    PortAutoSetSpeed,
    /// Whether a hub port can set its speed by itself.
    PortSupportsAutoSetSpeed,
    /// Whether the speed of a hub port can be set.
    PortSupportsSetSpeed,
    /// The control mode of a stepper.
    ControlMode,
    /// The data interval of a stepper, in milliseconds.
    DataInterval,
    /// The shortest data interval of a stepper, in milliseconds.
    MinDataInterval,
    /// The longest data interval of a stepper, in milliseconds.
    MaxDataInterval,
    /// Whether a stepper is engaged.
    Engaged,
    /// Whether a stepper is moving.
    IsMoving,
    /// The RTD type of a temperature sensor.
    RtdType,
    /// The RTD wire setup of a temperature sensor.
    RtdWireSetup,
    /// The thermocouple type of a temperature sensor.
    ThermocoupleType,
}

/// One call into the native library, with its arguments.
#[derive(Debug, Clone, Copy, PartialEq, Eq, Hash, Structural)]
pub enum NativeCall {
    /// Create a channel object of the given class.
    Create { class: ChannelClass },
    /// Delete a channel object of the given class. After it returns the
    /// native library delivers no further event for the handle.
    Delete { class: ChannelClass, handle: Handle },
    /// Ask for the channel to be opened, without waiting.
    Open { handle: Handle },
    /// Open the channel and wait for a device, for at most the given time.
    OpenWaitForAttachment { handle: Handle, timeout_ms: u32 },
    /// Close the channel.
    Close { handle: Handle },
    /// Read a yes-or-no property.
    GetFlag { handle: Handle, flag: Flag },
    /// Write a yes-or-no property.
    SetFlag { handle: Handle, flag: Flag, on: bool },
    /// Read an addressing property.
    GetAddress { handle: Handle, address: Address },
    /// Write an addressing property.
    SetAddress { handle: Handle, address: Address, value: i32 },
    /// Read a data interval.
    GetDataInterval { handle: Handle, interval: Interval },
    /// Set the data interval.
    SetDataInterval { handle: Handle, interval_ms: u32 },
    /// Read a class or a device id, as its native integer.
    GetIdentity { handle: Handle, identity: Identity },
    /// Count the channels of a class on the device.
    GetDeviceChannelCount { handle: Handle, class: ChannelClass },
    /// Read a text.
    GetText { handle: Handle, text: Text },
    /// Set the label by which the device is searched for. The label goes
    /// with the call as its text.
    SetDeviceLabel { handle: Handle },
    /// Write a label to the device's flash memory. The label goes with the
    /// call as its text.
    WriteDeviceLabel { handle: Handle },
    /// Register the trampoline of `event` with `context`; with the null
    /// context, remove the registration instead.
    SetHandler { handle: Handle, event: Event, context: Context },
    /// Read a property of a channel of the given class.
    GetProperty { handle: Handle, class: ChannelClass, property: Property },
    /// Write a property of a channel of the given class, as its native
    /// integer.
    SetProperty { handle: Handle, class: ChannelClass, property: Property, raw: u32 },
    /// Read a property of one port of a hub.
    GetPortProperty { handle: Handle, port: i32, property: Property },
    /// Write a property of one port of a hub, as its native integer.
    SetPortProperty { handle: Handle, port: i32, property: Property, raw: u32 },
    /// Arm the failsafe of a channel of the given class.
    EnableFailsafe { handle: Handle, class: ChannelClass, failsafe_ms: u32 },
    /// Reset the failsafe timer of a channel of the given class.
    ResetFailsafe { handle: Handle, class: ChannelClass },
    /// Take a counted reference to the object behind the handle.
    Retain { handle: Handle },
    /// Give a counted reference back.
    Release { handle: Handle },
    /// Create a device manager.
    ManagerCreate,
    /// Open a device manager.
    ManagerOpen { handle: Handle },
    /// Close a device manager.
    ManagerClose { handle: Handle },
    /// Delete a device manager.
    ManagerDelete { handle: Handle },
    /// Ask for the description of a return code.
    GetErrorDescription { code: u32 },
    /// Ask for the full version text of the native library.
    GetLibraryVersion,
    /// Ask for the version number of the native library.
    GetLibraryVersionNumber,
    /// Reset the native library to its newly loaded state.
    ResetLibrary,
    /// Register a server to connect to. The name, the address and the
    /// password go with the call as its texts; the flags are zero.
    AddServer { port: i32 },
    /// Remove the registration of a server. The name goes with the call as
    /// its text.
    RemoveServer,
    /// Remove every registered server.
    RemoveAllServers,
    /// Allow connecting to a server. The name goes with the call as its text.
    EnableServer,
    /// Forbid connecting to a server. The name goes with the call as its
    /// text; the flags are zero.
    DisableServer,
    /// Set the password of a server. The name and the password go with the
    /// call as its texts.
    SetServerPassword,
    /// Look for servers of a type on the network.
    EnableServerDiscovery { server_type: u32 },
    /// Stop looking for servers of a type.
    DisableServerDiscovery { server_type: u32 },
    /// Register the trampoline for servers that appear, with `context`.
    SetOnServerAddedHandler { context: Context },
    /// Register the trampoline for servers that disappear, with `context`.
    SetOnServerRemovedHandler { context: Context },
}

/// A call together with the texts that go with it.
#[derive(Debug, Clone, PartialEq, Eq)]
pub struct TextCall {
    /// The call.
    pub call: NativeCall,
    /// The texts that are handed to the native entry point, in the order in
    /// which it takes them.
    pub texts: Vec<String>,
}

impl TextCall {
    /// Whether this is `call`, to be made with exactly `texts`.
    pub open spec fn says(&self, call: NativeCall, texts: Seq<Seq<char>>) -> bool {
        &&& self.call == call
        &&& self.texts@.len() == texts.len()
        &&& forall|i: int| 0 <= i < texts.len() ==> (#[trigger] self.texts@[i])@ == texts[i]
    }
}

/// One step of a plan that the caller carries out in order.
#[derive(Debug, Clone, Copy, PartialEq, Eq, Hash, Structural)]
pub enum Action {
    /// Make this call; its return code is not looked at.
    Call(NativeCall),
    /// Free the boxed callback behind `context`, which was registered for
    /// `event`. The context must not be used afterwards.
    ReleaseCallback { event: Event, context: Context },
}

/// Reads a yes-or-no reply: the failure that `code` names, or else whether
/// the value that came back is non-zero.
pub fn flag_reply(code: u32, raw: i32) -> (r: Result<bool, ReturnCode>)
    ensures
        r == (match ReturnCode::spec_result(code) {
            Ok(_) => Ok::<bool, ReturnCode>(raw != 0),
            Err(e) => Err(e),
        }),
{
    match ReturnCode::result(code) {
        Ok(_) => Ok(raw != 0),
        Err(e) => Err(e),
    }
}

/// Reads a reply that carries a value: the failure that `code` names, or else
/// the value unchanged.
pub fn value_reply<T>(code: u32, value: T) -> (r: Result<T, ReturnCode>)
    ensures
        r == (match ReturnCode::spec_result(code) {
            Ok(_) => Ok::<T, ReturnCode>(value),
            Err(e) => Err(e),
        }),
{
    match ReturnCode::result(code) {
        Ok(_) => Ok(value),
        Err(e) => Err(e),
    }
}

/// The native form of a yes-or-no property: one for yes, zero for no.
pub open spec fn spec_flag_value(on: bool) -> u32 {
    if on {
        1
    } else {
        0
    }
}

/// The native form of a yes-or-no property: one for yes, zero for no.
#[verifier::when_used_as_spec(spec_flag_value)]
pub fn flag_value(on: bool) -> (raw: u32)
    ensures
        raw == spec_flag_value(on),
{
    if on {
        1
    } else {
        0
    }
}

/// The native form of a yes-or-no argument: one for yes, zero for no.
pub fn flag_argument(on: bool) -> (raw: i32)
    ensures
        raw == (if on { 1i32 } else { 0i32 }),
{
    if on {
        1
    } else {
        0
    }
}

/// One step of a sequence that is carried out in order and ends at the first
/// failure.
#[derive(Debug, Clone, Copy, PartialEq, Eq, Structural)]
pub enum Step {
    /// Make this call; the sequence goes on only if it succeeds.
    Call(NativeCall),
    /// Make this call; the sequence goes on whether it succeeds or not.
    Try(NativeCall),
    /// End the sequence with this failure, without a call.
    Fail(ReturnCode),
}

/// What is to happen next in a sequence of steps.
#[derive(Debug, Clone, Copy)]
pub enum Next {
    /// Make this call and come back with its return code.
    Call(NativeCall),
    /// The sequence has ended with this result.
    Finished(Result<(), ReturnCode>),
}

/// Whether the step before position `answered` of `plan` is one whose
/// failure ends the sequence.
pub open spec fn must_succeed(plan: Seq<Step>, answered: int) -> bool {
    !(0 < answered <= plan.len() && plan[answered - 1] is Try)
}

/// What is to happen next in `plan` once `answered` of its steps are behind
/// and the last call, if there was one, was answered with `last_code`.
pub open spec fn spec_next_step(plan: Seq<Step>, answered: int, last_code: u32) -> Next {
    if answered > 0 && last_code != 0 && must_succeed(plan, answered) {
        Next::Finished(Err(ReturnCode::of_code(last_code)))
    } else if answered >= plan.len() {
        Next::Finished(Ok(()))
    } else {
        match plan[answered] {
            Step::Call(call) => Next::Call(call),
            Step::Try(call) => Next::Call(call),
            Step::Fail(e) => Next::Finished(Err(e)),
        }
    }
}

/// Decides the next step of a sequence: the failure of the last call ends
/// it, unless that call was only tried; otherwise the next step is taken, and
/// the sequence succeeds once no step is left.
pub fn next_step(plan: &Vec<Step>, answered: usize, last_code: u32) -> (next: Next)
    ensures
        next == spec_next_step(plan@, answered as int, last_code),
{
    let tried = if 0 < answered && answered <= plan.len() {
        match plan[answered - 1] {
            Step::Try(_) => true,
            _ => false,
        }
    } else {
        false
    };
    if answered > 0 && last_code != 0 && !tried {
        Next::Finished(Err(ReturnCode::from(last_code)))
    } else if answered >= plan.len() {
        Next::Finished(Ok(()))
    } else {
        match plan[answered] {
            Step::Call(call) => Next::Call(call),
            Step::Try(call) => Next::Call(call),
            Step::Fail(e) => Next::Finished(Err(e)),
        }
    }
}

} // verus!
