//! Verified core of a safe binding to the phidget22 device library.
//!
//! The crate holds what a binding decides: how native return codes become
//! errors, which native call an operation makes and with which arguments,
//! which callback box is owned by which slot and when it is freed, and in
//! which order a wrapper is torn down. It makes no native call itself. Each
//! operation hands its call out as a value of [`native::NativeCall`]; the
//! caller performs it and hands the return code back.

pub mod callback;
pub mod channel;
pub mod devices;
pub mod errors;
pub mod handle;
pub mod manager;
pub mod native;
pub mod net;
pub mod phidget;
pub mod text;
pub mod timeout;
pub mod types;

pub use crate::devices::current_input::CurrentInput;
pub use crate::devices::digital_input::{DigitalInput, InputMode, PowerSupply};
pub use crate::devices::digital_output::DigitalOutput;
pub use crate::devices::hub::{Hub, HubPortMode};
pub use crate::devices::humidity_sensor::HumiditySensor;
pub use crate::devices::pressure_sensor::PressureSensor;
pub use crate::devices::stepper::{ControlMode, Stepper};
pub use crate::devices::temperature_sensor::{
    RtdType, RtdWireSetup, TemperatureSensor, ThermocoupleType,
};
pub use crate::devices::voltage_input::VoltageInput;
pub use crate::devices::voltage_output::VoltageOutput;
pub use crate::devices::voltage_ratio_input::VoltageRatioInput;
pub use crate::errors::ReturnCode;
pub use crate::net::ServerType;
pub use crate::phidget::{GenericPhidget, Phidget, PhidgetFilter, PhidgetInfo, PhidgetRef};
pub use crate::timeout::{PHIDGET_TIMEOUT_DEFAULT, PHIDGET_TIMEOUT_INFINITE};
pub use crate::types::{ChannelClass, DeviceClass, DeviceId};

use crate::native::NativeCall;
use vstd::prelude::*;

verus! {

/// The serial number that matches any device.
pub const PHIDGET_SERIALNUMBER_ANY: i32 = -1;

/// The hub port that matches any port.
pub const PHIDGET_HUBPORT_ANY: i32 = -1;

/// The channel index that matches any channel.
pub const PHIDGET_CHANNEL_ANY: i32 = -1;

/// The hub port speed that the hub chooses itself.
pub const PHIDGET_HUBPORTSPEED_AUTO: u32 = 0;

/// The call that asks for the full version of the native library as a text,
/// something like "Phidget22 - Version 1.14 - Built Mar 31 2023 22:44:59".
pub fn library_version() -> (call: NativeCall)
    ensures
        call == NativeCall::GetLibraryVersion,
{
    NativeCall::GetLibraryVersion
}

/// The call that asks for just the version number of the native library as a
/// text, something like "1.14".
pub fn library_version_number() -> (call: NativeCall)
    ensures
        call == NativeCall::GetLibraryVersionNumber,
{
    NativeCall::GetLibraryVersionNumber
}

/// The call that closes all channels and stops all threads: the library is
/// reset to a newly loaded state. Every handle and every wrapper that exists
/// is invalid once the call was made.
pub fn reset_library() -> (call: NativeCall)
    ensures
        call == NativeCall::ResetLibrary,
{
    NativeCall::ResetLibrary
}

} // verus!
