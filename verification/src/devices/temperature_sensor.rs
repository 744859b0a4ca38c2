//! Phidget temperature sensor.

use crate::callback::{
    after_registration, after_removal, exclusive, fresh, registered, Settlement, Slot,
};
use crate::channel::{teardown_plan, Channel};
use crate::errors::ReturnCode;
use crate::handle::{Context, Handle};
use crate::native::{Action, Event, NativeCall, Property};
use crate::phidget::Phidget;
use crate::types::ChannelClass;
use vstd::prelude::*;

verus! {

/// Phidget temperature sensor RTD types
///
/// A Resistance Temperature Detector (RTD) is a sensor whose resistance
/// changes as its temperature changes.
#[derive(Debug, Clone, Copy, PartialEq, Eq, PartialOrd, Ord, Hash, Structural)]
#[allow(missing_docs)]
pub enum RtdType {
    Pt100_3850,
    Pt1000_3850,
    Pt100_3920,
    Pt1000_3920,
}

impl RtdType {
    /// The native integer that stands for this type.
    pub open spec fn spec_code(self) -> u32 {
        match self {
            RtdType::Pt100_3850 => 1,
            RtdType::Pt1000_3850 => 2,
            RtdType::Pt100_3920 => 3,
            RtdType::Pt1000_3920 => 4,
        }
    }

    /// Whether some type stands for `val`.
    pub open spec fn is_code(val: u32) -> bool {
        exists|c: RtdType| c.spec_code() == val
    }

    /// The type that a native integer names, or `InvalidArg` for an integer
    /// that names none.
    pub open spec fn of_code(val: u32) -> Result<RtdType, ReturnCode> {
        if Self::is_code(val) {
            Ok(choose|c: RtdType| c.spec_code() == val)
        } else {
            Err(ReturnCode::InvalidArg)
        }
    }

    /// The native integer that stands for this type.
    #[verifier::when_used_as_spec(spec_code)]
    pub fn code(self) -> (c: u32)
        ensures
            c == self.spec_code(),
    {
        match self {
            RtdType::Pt100_3850 => 1,
            RtdType::Pt1000_3850 => 2,
            RtdType::Pt100_3920 => 3,
            RtdType::Pt1000_3920 => 4,
        }
    }

    /// Converts a native integer into a type; an integer that names none
    /// is rejected with `InvalidArg`.
    pub fn try_from(val: u32) -> (r: Result<RtdType, ReturnCode>)
        ensures
            r == Self::of_code(val),
            r matches Ok(c) ==> c.spec_code() == val,
            r is Err <==> !Self::is_code(val),
    {
        let r = match val {
            1 => Ok(RtdType::Pt100_3850),
            2 => Ok(RtdType::Pt1000_3850),
            3 => Ok(RtdType::Pt100_3920),
            4 => Ok(RtdType::Pt1000_3920),
            _ => Err(ReturnCode::InvalidArg),
        };
        proof {
            if let Ok(c) = r {
                assert(c.spec_code() == val);
                Self::lemma_code_injective(c, Self::of_code(val)->Ok_0);
            }
        }
        r
    }

    /// Reads a reply that carries a type: the failure that `code` names, or
    /// else the type that `raw` names.
    pub fn from_reply(code: u32, raw: u32) -> (r: Result<RtdType, ReturnCode>)
        ensures
            r == (match ReturnCode::spec_result(code) {
                Err(e) => Err::<RtdType, ReturnCode>(e),
                Ok(_) => Self::of_code(raw),
            }),
    {
        match ReturnCode::result(code) {
            Err(e) => Err(e),
            Ok(_) => Self::try_from(raw),
        }
    }

    /// No two types share a native integer.
    pub proof fn lemma_code_injective(a: RtdType, b: RtdType)
        requires
            a.spec_code() == b.spec_code(),
        ensures
            a == b,
    {
    }

    /// The native integer of a type converts back into that type.
    pub proof fn lemma_code_round_trip(c: RtdType)
        ensures
            Self::of_code(c.spec_code()) == Ok::<_, ReturnCode>(c),
    {
        assert(Self::is_code(c.spec_code()));
        Self::lemma_code_injective(Self::of_code(c.spec_code())->Ok_0, c);
    }
}

/// Phidget temperature sensor RTD wire setup
///
/// The type of wire setup for RTD sensors.
#[derive(Debug, Clone, Copy, PartialEq, Eq, PartialOrd, Ord, Hash, Structural)]
#[allow(missing_docs)]
pub enum RtdWireSetup {
    TwoWire,
    ThreeWire,
    FourWire,
}

impl RtdWireSetup {
    /// The native integer that stands for this setup.
    pub open spec fn spec_code(self) -> u32 {
        match self {
            RtdWireSetup::TwoWire => 1,
            RtdWireSetup::ThreeWire => 2,
            RtdWireSetup::FourWire => 3,
        }
    }

    /// Whether some setup stands for `val`.
    pub open spec fn is_code(val: u32) -> bool {
        exists|c: RtdWireSetup| c.spec_code() == val
    }

    /// The setup that a native integer names, or `InvalidArg` for an integer
    /// that names none.
    pub open spec fn of_code(val: u32) -> Result<RtdWireSetup, ReturnCode> {
        if Self::is_code(val) {
            Ok(choose|c: RtdWireSetup| c.spec_code() == val)
        } else {
            Err(ReturnCode::InvalidArg)
        }
    }

    /// The native integer that stands for this setup.
    #[verifier::when_used_as_spec(spec_code)]
    pub fn code(self) -> (c: u32)
        ensures
            c == self.spec_code(),
    {
        match self {
            RtdWireSetup::TwoWire => 1,
            RtdWireSetup::ThreeWire => 2,
            RtdWireSetup::FourWire => 3,
        }
    }

    /// Converts a native integer into a setup; an integer that names none
    /// is rejected with `InvalidArg`.
    pub fn try_from(val: u32) -> (r: Result<RtdWireSetup, ReturnCode>)
        ensures
            r == Self::of_code(val),
            r matches Ok(c) ==> c.spec_code() == val,
            r is Err <==> !Self::is_code(val),
    {
        let r = match val {
            1 => Ok(RtdWireSetup::TwoWire),
            2 => Ok(RtdWireSetup::ThreeWire),
            3 => Ok(RtdWireSetup::FourWire),
            _ => Err(ReturnCode::InvalidArg),
        };
        proof {
            if let Ok(c) = r {
                assert(c.spec_code() == val);
                Self::lemma_code_injective(c, Self::of_code(val)->Ok_0);
            }
        }
        r
    }

    /// Reads a reply that carries a setup: the failure that `code` names, or
    /// else the setup that `raw` names.
    pub fn from_reply(code: u32, raw: u32) -> (r: Result<RtdWireSetup, ReturnCode>)
        ensures
            r == (match ReturnCode::spec_result(code) {
                Err(e) => Err::<RtdWireSetup, ReturnCode>(e),
                Ok(_) => Self::of_code(raw),
            }),
    {
        match ReturnCode::result(code) {
            Err(e) => Err(e),
            Ok(_) => Self::try_from(raw),
        }
    }

    /// No two setups share a native integer.
    pub proof fn lemma_code_injective(a: RtdWireSetup, b: RtdWireSetup)
        requires
            a.spec_code() == b.spec_code(),
        ensures
            a == b,
    {
    }

    /// The native integer of a setup converts back into that setup.
    pub proof fn lemma_code_round_trip(c: RtdWireSetup)
        ensures
            Self::of_code(c.spec_code()) == Ok::<_, ReturnCode>(c),
    {
        assert(Self::is_code(c.spec_code()));
        Self::lemma_code_injective(Self::of_code(c.spec_code())->Ok_0, c);
    }
}

/// Phidget temperature sensor thermocouple types
#[derive(Debug, Clone, Copy, PartialEq, Eq, PartialOrd, Ord, Hash, Structural)]
#[allow(missing_docs)]
pub enum ThermocoupleType {
    TypeJ,
    TypeK,
    TypeE,
    TypeT,
}

impl ThermocoupleType {
    /// The native integer that stands for this type.
    pub open spec fn spec_code(self) -> u32 {
        match self {
            ThermocoupleType::TypeJ => 1,
            ThermocoupleType::TypeK => 2,
            ThermocoupleType::TypeE => 3,
            ThermocoupleType::TypeT => 4,
        }
    }

    /// Whether some type stands for `val`.
    pub open spec fn is_code(val: u32) -> bool {
        exists|c: ThermocoupleType| c.spec_code() == val
    }

    /// The type that a native integer names, or `InvalidArg` for an integer
    /// that names none.
    pub open spec fn of_code(val: u32) -> Result<ThermocoupleType, ReturnCode> {
        if Self::is_code(val) {
            Ok(choose|c: ThermocoupleType| c.spec_code() == val)
        } else {
            Err(ReturnCode::InvalidArg)
        }
    }

    /// The native integer that stands for this type.
    #[verifier::when_used_as_spec(spec_code)]
    pub fn code(self) -> (c: u32)
        ensures
            c == self.spec_code(),
    {
        match self {
            ThermocoupleType::TypeJ => 1,
            ThermocoupleType::TypeK => 2,
            ThermocoupleType::TypeE => 3,
            ThermocoupleType::TypeT => 4,
        }
    }

    /// Converts a native integer into a type; an integer that names none
    /// is rejected with `InvalidArg`.
    pub fn try_from(val: u32) -> (r: Result<ThermocoupleType, ReturnCode>)
        ensures
            r == Self::of_code(val),
            r matches Ok(c) ==> c.spec_code() == val,
            r is Err <==> !Self::is_code(val),
    {
        let r = match val {
            1 => Ok(ThermocoupleType::TypeJ),
            2 => Ok(ThermocoupleType::TypeK),
            3 => Ok(ThermocoupleType::TypeE),
            4 => Ok(ThermocoupleType::TypeT),
            _ => Err(ReturnCode::InvalidArg),
        };
        proof {
            if let Ok(c) = r {
                assert(c.spec_code() == val);
                Self::lemma_code_injective(c, Self::of_code(val)->Ok_0);
            }
        }
        r
    }

    /// Reads a reply that carries a type: the failure that `code` names, or
    /// else the type that `raw` names.
    pub fn from_reply(code: u32, raw: u32) -> (r: Result<ThermocoupleType, ReturnCode>)
        ensures
            r == (match ReturnCode::spec_result(code) {
                Err(e) => Err::<ThermocoupleType, ReturnCode>(e),
                Ok(_) => Self::of_code(raw),
            }),
    {
        match ReturnCode::result(code) {
            Err(e) => Err(e),
            Ok(_) => Self::try_from(raw),
        }
    }

    /// No two types share a native integer.
    pub proof fn lemma_code_injective(a: ThermocoupleType, b: ThermocoupleType)
        requires
            a.spec_code() == b.spec_code(),
        ensures
            a == b,
    {
    }

    /// The native integer of a type converts back into that type.
    pub proof fn lemma_code_round_trip(c: ThermocoupleType)
        ensures
            Self::of_code(c.spec_code()) == Ok::<_, ReturnCode>(c),
    {
        assert(Self::is_code(c.spec_code()));
        Self::lemma_code_injective(Self::of_code(c.spec_code())->Ok_0, c);
    }
}

/// Phidget temperature sensor: the owner of one native channel of its kind and of the
/// callbacks registered on it.
pub struct TemperatureSensor {
    channel: Channel,
}

impl TemperatureSensor {
    /// The callback slots that are set.
    pub closed spec fn slots(&self) -> Seq<Slot> {
        self.channel.slots()
    }

    /// The wrapper is well formed when it is a well-formed channel of its own
    /// class.
    pub closed spec fn wf(&self) -> bool {
        self.channel.wf() && self.channel.class() == ChannelClass::TemperatureSensor
    }

    /// A well-formed wrapper has a handle that is not null, and its slots
    /// keep the rule of exclusive ownership.
    pub proof fn lemma_wf(&self)
        requires
            self.wf(),
        ensures
            !self.handle().is_null(),
            exclusive(self.slots()),
    {
        self.channel.lemma_wf();
    }

    /// The call that creates the native temperature sensor.
    pub fn create() -> (call: NativeCall)
        ensures
            call == (NativeCall::Create { class: ChannelClass::TemperatureSensor }),
    {
        Channel::create(ChannelClass::TemperatureSensor)
    }

    /// Completes the creation of a temperature sensor, given the code with which the
    /// native library answered the create call and the handle that it gave.
    ///
    /// A failed call gives its failure, and a call that succeeded but gave the
    /// null handle gives `NoMemory`. Otherwise the wrapper owns the new native
    /// object, and no callback is registered yet.
    pub fn new(code: u32, chan: Handle) -> (r: Result<TemperatureSensor, ReturnCode>)
        ensures
            code != 0 ==> r is Err && r->Err_0 == ReturnCode::of_code(code),
            code == 0 && chan.is_null() ==> r is Err && r->Err_0 == ReturnCode::NoMemory,
            code == 0 && !chan.is_null() ==> r is Ok && r->Ok_0.wf() && r->Ok_0.handle() == chan
                && r->Ok_0.slots() == Seq::<Slot>::empty(),
    {
        match Channel::new(ChannelClass::TemperatureSensor, code, chan) {
            Ok(channel) => Ok(TemperatureSensor { channel }),
            Err(e) => Err(e),
        }
    }

    /// Takes ownership of a native temperature sensor that exists. No callback is
    /// registered yet.
    pub fn from(chan: Handle) -> (device: TemperatureSensor)
        requires
            !chan.is_null(),
        ensures
            device.wf(),
            device.handle() == chan,
            device.slots() == Seq::<Slot>::empty(),
    {
        TemperatureSensor { channel: Channel::from(ChannelClass::TemperatureSensor, chan) }
    }

    /// Get the underlying channel handle.
    pub fn as_channel(&self) -> (chan: Handle)
        ensures
            chan == self.handle(),
    {
        self.channel.as_handle()
    }

    /// The context registered for `event`, if there is one.
    pub fn handler(&self, event: Event) -> (r: Option<Context>)
        requires
            self.wf(),
        ensures
            r == registered(self.slots(), event),
    {
        self.channel.handler(event)
    }

    /// Whether `context` may be registered: it is not null and no slot owns
    /// it.
    pub fn admits(&self, context: Context) -> (b: bool)
        requires
            self.wf(),
        ensures
            b == fresh(self.slots(), context),
    {
        self.channel.admits(context)
    }

    /// The call that reads the RTD type.
    pub fn rtd_type(&self) -> (call: NativeCall)
        ensures
            call == (NativeCall::GetProperty {
                handle: self.handle(),
                class: ChannelClass::TemperatureSensor,
                property: Property::RtdType,
            }),
    {
        NativeCall::GetProperty {
            handle: self.channel.as_handle(),
            class: ChannelClass::TemperatureSensor,
            property: Property::RtdType,
        }
    }

    /// The call that sets the RTD type.
    pub fn set_rtd_type(&self, typ: RtdType) -> (call: NativeCall)
        ensures
            call == (NativeCall::SetProperty {
                handle: self.handle(),
                class: ChannelClass::TemperatureSensor,
                property: Property::RtdType,
                raw: typ.spec_code(),
            }),
    {
        NativeCall::SetProperty {
            handle: self.channel.as_handle(),
            class: ChannelClass::TemperatureSensor,
            property: Property::RtdType,
            raw: typ.code(),
        }
    }

    /// The call that reads the RTD wire setup.
    pub fn rtd_wire_setup(&self) -> (call: NativeCall)
        ensures
            call == (NativeCall::GetProperty {
                handle: self.handle(),
                class: ChannelClass::TemperatureSensor,
                property: Property::RtdWireSetup,
            }),
    {
        NativeCall::GetProperty {
            handle: self.channel.as_handle(),
            class: ChannelClass::TemperatureSensor,
            property: Property::RtdWireSetup,
        }
    }

    /// The call that sets the RTD wire setup.
    pub fn set_rtd_wire_setup(&self, typ: RtdWireSetup) -> (call: NativeCall)
        ensures
            call == (NativeCall::SetProperty {
                handle: self.handle(),
                class: ChannelClass::TemperatureSensor,
                property: Property::RtdWireSetup,
                raw: typ.spec_code(),
            }),
    {
        NativeCall::SetProperty {
            handle: self.channel.as_handle(),
            class: ChannelClass::TemperatureSensor,
            property: Property::RtdWireSetup,
            raw: typ.code(),
        }
    }

    /// The call that reads the thermocouple type.
    pub fn thermocouple_type(&self) -> (call: NativeCall)
        ensures
            call == (NativeCall::GetProperty {
                handle: self.handle(),
                class: ChannelClass::TemperatureSensor,
                property: Property::ThermocoupleType,
            }),
    {
        NativeCall::GetProperty {
            handle: self.channel.as_handle(),
            class: ChannelClass::TemperatureSensor,
            property: Property::ThermocoupleType,
        }
    }

    /// The call that sets the thermocouple type.
    pub fn set_thermocouple_type(&self, typ: ThermocoupleType) -> (call: NativeCall)
        ensures
            call == (NativeCall::SetProperty {
                handle: self.handle(),
                class: ChannelClass::TemperatureSensor,
                property: Property::ThermocoupleType,
                raw: typ.spec_code(),
            }),
    {
        NativeCall::SetProperty {
            handle: self.channel.as_handle(),
            class: ChannelClass::TemperatureSensor,
            property: Property::ThermocoupleType,
            raw: typ.code(),
        }
    }

    /// The call that sets the handler to receive temperature change callbacks: it
    /// registers the trampoline of the event with `context`.
    pub fn set_on_temperature_change_handler(&self, context: Context) -> (call: NativeCall)
        ensures
            call == (NativeCall::SetHandler {
                handle: self.handle(),
                event: Event::TemperatureChange,
                context,
            }),
    {
        self.channel.set_handler(Event::TemperatureChange, context)
    }

    /// The call that sets the handler to receive attach callbacks: it
    /// registers the trampoline of the event with `context`.
    pub fn set_on_attach_handler(&self, context: Context) -> (call: NativeCall)
        ensures
            call == (NativeCall::SetHandler {
                handle: self.handle(),
                event: Event::Attach,
                context,
            }),
    {
        self.channel.set_handler(Event::Attach, context)
    }

    /// The call that sets the handler to receive detach callbacks: it
    /// registers the trampoline of the event with `context`.
    pub fn set_on_detach_handler(&self, context: Context) -> (call: NativeCall)
        ensures
            call == (NativeCall::SetHandler {
                handle: self.handle(),
                event: Event::Detach,
                context,
            }),
    {
        self.channel.set_handler(Event::Detach, context)
    }

    /// The call that registers the trampoline of `event` with `context`.
    pub fn set_handler(&self, event: Event, context: Context) -> (call: NativeCall)
        ensures
            call == (NativeCall::SetHandler { handle: self.handle(), event, context }),
    {
        self.channel.set_handler(event, context)
    }

    /// The call that removes the callback of `event`.
    pub fn remove_handler(&self, event: Event) -> (call: NativeCall)
        ensures
            call == (NativeCall::SetHandler {
                handle: self.handle(),
                event,
                context: Context { addr: 0 },
            }),
    {
        self.channel.remove_handler(event)
    }

    /// Settles a registration that the native library has answered with
    /// `code`: on success the slot of `event` takes `context` over and the box
    /// that it owned before is to be released; on failure the box of `context`
    /// itself is.
    pub fn handler_set(&mut self, event: Event, context: Context, code: u32) -> (s: Settlement)
        requires
            old(self).wf(),
            fresh(old(self).slots(), context),
        ensures
            final(self).wf(),
            final(self).handle() == old(self).handle(),
            s.result == ReturnCode::spec_result(code),
            code == 0 ==> final(self).slots() == after_registration(
                old(self).slots(),
                event,
                context,
            ) && s.release == registered(old(self).slots(), event),
            code != 0 ==> final(self).slots() == old(self).slots() && s.release == Some(context),
    {
        self.channel.handler_set(event, context, code)
    }

    /// Settles a removal that the native library has answered with `code`: on
    /// success the slot of `event` is emptied and the box that it owned is to
    /// be released; on failure nothing changes.
    pub fn handler_removed(&mut self, event: Event, code: u32) -> (s: Settlement)
        requires
            old(self).wf(),
        ensures
            final(self).wf(),
            final(self).handle() == old(self).handle(),
            s.result == ReturnCode::spec_result(code),
            code == 0 ==> final(self).slots() == after_removal(old(self).slots(), event)
                && s.release == registered(old(self).slots(), event),
            code != 0 ==> final(self).slots() == old(self).slots() && s.release.is_none(),
    {
        self.channel.handler_removed(event, code)
    }

    /// Tears the temperature sensor down, given what the probe for "is it open?"
    /// answered: the close unless the probe said that the channel is not open,
    /// then the delete of the native object, then the release of every
    /// callback box.
    pub fn teardown(self, probe: Result<bool, ReturnCode>) -> (plan: Vec<Action>)
        requires
            self.wf(),
        ensures
            plan@ == teardown_plan(
                ChannelClass::TemperatureSensor,
                self.handle(),
                self.slots(),
                probe,
            ),
    {
        self.channel.teardown(probe)
    }
}

impl Phidget for TemperatureSensor {
    closed spec fn handle(&self) -> Handle {
        self.channel.handle()
    }

    fn as_handle(&self) -> (h: Handle) {
        self.channel.as_handle()
    }
}

} // verus!
