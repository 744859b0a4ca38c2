//! Phidget digital input.

use crate::callback::{
    after_registration, after_removal, exclusive, fresh, registered, Settlement, Slot,
};
use crate::channel::{teardown_plan, Channel};
use crate::errors::ReturnCode;
use crate::handle::{Context, Handle};
use crate::native::{Action, Event, NativeCall, Property};
use crate::phidget::Phidget;
use crate::types::ChannelClass;
use vstd::prelude::*;

verus! {

/// The input mode of a digital input.
#[derive(Debug, Clone, Copy, PartialEq, Eq, PartialOrd, Ord, Hash, Structural)]
#[allow(missing_docs)]
pub enum InputMode {
    /// For using sensors with NPN transistor outputs.
    NPN,
    /// For using sensors with PNP transistor outputs.
    PNP,
}

impl InputMode {
    /// The native integer that stands for this mode.
    pub open spec fn spec_code(self) -> u32 {
        match self {
            InputMode::NPN => 1,
            InputMode::PNP => 2,
        }
    }

    /// Whether some mode stands for `val`.
    pub open spec fn is_code(val: u32) -> bool {
        exists|c: InputMode| c.spec_code() == val
    }

    /// The mode that a native integer names, or `UnknownVal` for an integer
    /// that names none.
    pub open spec fn of_code(val: u32) -> Result<InputMode, ReturnCode> {
        if Self::is_code(val) {
            Ok(choose|c: InputMode| c.spec_code() == val)
        } else {
            Err(ReturnCode::UnknownVal)
        }
    }

    /// The native integer that stands for this mode.
    #[verifier::when_used_as_spec(spec_code)]
    pub fn code(self) -> (c: u32)
        ensures
            c == self.spec_code(),
    {
        match self {
            InputMode::NPN => 1,
            InputMode::PNP => 2,
        }
    }

    /// Converts a native integer into a mode; an integer that names none
    /// is rejected with `UnknownVal`.
    pub fn try_from(val: u32) -> (r: Result<InputMode, ReturnCode>)
        ensures
            r == Self::of_code(val),
            r matches Ok(c) ==> c.spec_code() == val,
            r is Err <==> !Self::is_code(val),
    {
        let r = match val {
            1 => Ok(InputMode::NPN),
            2 => Ok(InputMode::PNP),
            _ => Err(ReturnCode::UnknownVal),
        };
        proof {
            if let Ok(c) = r {
                assert(c.spec_code() == val);
                Self::lemma_code_injective(c, Self::of_code(val)->Ok_0);
            }
        }
        r
    }

    /// Reads a reply that carries a mode: the failure that `code` names, or
    /// else the mode that `raw` names.
    pub fn from_reply(code: u32, raw: u32) -> (r: Result<InputMode, ReturnCode>)
        ensures
            r == (match ReturnCode::spec_result(code) {
                Err(e) => Err::<InputMode, ReturnCode>(e),
                Ok(_) => Self::of_code(raw),
            }),
    {
        match ReturnCode::result(code) {
            Err(e) => Err(e),
            Ok(_) => Self::try_from(raw),
        }
    }

    /// No two modes share a native integer.
    pub proof fn lemma_code_injective(a: InputMode, b: InputMode)
        requires
            a.spec_code() == b.spec_code(),
        ensures
            a == b,
    {
    }

    /// The native integer of a mode converts back into that mode.
    pub proof fn lemma_code_round_trip(c: InputMode)
        ensures
            Self::of_code(c.spec_code()) == Ok::<_, ReturnCode>(c),
    {
        assert(Self::is_code(c.spec_code()));
        Self::lemma_code_injective(Self::of_code(c.spec_code())->Ok_0, c);
    }
}

/// The power supply of a digital input.
#[derive(Debug, Clone, Copy, PartialEq, Eq, PartialOrd, Ord, Hash, Structural)]
#[allow(missing_docs)]
pub enum PowerSupply {
    /// Power supply off
    OFF,
    /// 12V power supply
    V12,
    /// 24V power supply
    V24,
}

impl PowerSupply {
    /// The native integer that stands for this supply.
    pub open spec fn spec_code(self) -> u32 {
        match self {
            PowerSupply::OFF => 1,
            PowerSupply::V12 => 2,
            PowerSupply::V24 => 3,
        }
    }

    /// Whether some supply stands for `val`.
    pub open spec fn is_code(val: u32) -> bool {
        exists|c: PowerSupply| c.spec_code() == val
    }

    /// The supply that a native integer names, or `UnknownVal` for an integer
    /// that names none.
    pub open spec fn of_code(val: u32) -> Result<PowerSupply, ReturnCode> {
        if Self::is_code(val) {
            Ok(choose|c: PowerSupply| c.spec_code() == val)
        } else {
            Err(ReturnCode::UnknownVal)
        }
    }

    /// The native integer that stands for this supply.
    #[verifier::when_used_as_spec(spec_code)]
    pub fn code(self) -> (c: u32)
        ensures
            c == self.spec_code(),
    {
        match self {
            PowerSupply::OFF => 1,
            PowerSupply::V12 => 2,
            PowerSupply::V24 => 3,
        }
    }

    /// Converts a native integer into a supply; an integer that names none
    /// is rejected with `UnknownVal`.
    pub fn try_from(val: u32) -> (r: Result<PowerSupply, ReturnCode>)
        ensures
            r == Self::of_code(val),
            r matches Ok(c) ==> c.spec_code() == val,
            r is Err <==> !Self::is_code(val),
    {
        let r = match val {
            1 => Ok(PowerSupply::OFF),
            2 => Ok(PowerSupply::V12),
            3 => Ok(PowerSupply::V24),
            _ => Err(ReturnCode::UnknownVal),
        };
        proof {
            if let Ok(c) = r {
                assert(c.spec_code() == val);
                Self::lemma_code_injective(c, Self::of_code(val)->Ok_0);
            }
        }
        r
    }

    /// Reads a reply that carries a supply: the failure that `code` names, or
    /// else the supply that `raw` names.
    pub fn from_reply(code: u32, raw: u32) -> (r: Result<PowerSupply, ReturnCode>)
        ensures
            r == (match ReturnCode::spec_result(code) {
                Err(e) => Err::<PowerSupply, ReturnCode>(e),
                Ok(_) => Self::of_code(raw),
            }),
    {
        match ReturnCode::result(code) {
            Err(e) => Err(e),
            Ok(_) => Self::try_from(raw),
        }
    }

    /// No two supplies share a native integer.
    pub proof fn lemma_code_injective(a: PowerSupply, b: PowerSupply)
        requires
            a.spec_code() == b.spec_code(),
        ensures
            a == b,
    {
    }

    /// The native integer of a supply converts back into that supply.
    pub proof fn lemma_code_round_trip(c: PowerSupply)
        ensures
            Self::of_code(c.spec_code()) == Ok::<_, ReturnCode>(c),
    {
        assert(Self::is_code(c.spec_code()));
        Self::lemma_code_injective(Self::of_code(c.spec_code())->Ok_0, c);
    }
}

/// The state of a digital input as the native library passes it: the low
/// eight bits of the native integer.
pub fn state_from_native(raw: i32) -> (state: u8)
    ensures
        state == raw as u8,
{
    #[verifier::truncate]
    (raw as u8)
}

/// Phidget digital input: the owner of one native channel of its kind and of the
/// callbacks registered on it.
pub struct DigitalInput {
    channel: Channel,
}

impl DigitalInput {
    /// The callback slots that are set.
    pub closed spec fn slots(&self) -> Seq<Slot> {
        self.channel.slots()
    }

    /// The wrapper is well formed when it is a well-formed channel of its own
    /// class.
    pub closed spec fn wf(&self) -> bool {
        self.channel.wf() && self.channel.class() == ChannelClass::DigitalInput
    }

    /// A well-formed wrapper has a handle that is not null, and its slots
    /// keep the rule of exclusive ownership.
    pub proof fn lemma_wf(&self)
        requires
            self.wf(),
        ensures
            !self.handle().is_null(),
            exclusive(self.slots()),
    {
        self.channel.lemma_wf();
    }

    /// The call that creates the native digital input.
    pub fn create() -> (call: NativeCall)
        ensures
            call == (NativeCall::Create { class: ChannelClass::DigitalInput }),
    {
        Channel::create(ChannelClass::DigitalInput)
    }

    /// Completes the creation of a digital input, given the code with which the
    /// native library answered the create call and the handle that it gave.
    ///
    /// A failed call gives its failure, and a call that succeeded but gave the
    /// null handle gives `NoMemory`. Otherwise the wrapper owns the new native
    /// object, and no callback is registered yet.
    pub fn new(code: u32, chan: Handle) -> (r: Result<DigitalInput, ReturnCode>)
        ensures
            code != 0 ==> r is Err && r->Err_0 == ReturnCode::of_code(code),
            code == 0 && chan.is_null() ==> r is Err && r->Err_0 == ReturnCode::NoMemory,
            code == 0 && !chan.is_null() ==> r is Ok && r->Ok_0.wf() && r->Ok_0.handle() == chan
                && r->Ok_0.slots() == Seq::<Slot>::empty(),
    {
        match Channel::new(ChannelClass::DigitalInput, code, chan) {
            Ok(channel) => Ok(DigitalInput { channel }),
            Err(e) => Err(e),
        }
    }

    /// Takes ownership of a native digital input that exists. No callback is
    /// registered yet.
    pub fn from(chan: Handle) -> (device: DigitalInput)
        requires
            !chan.is_null(),
        ensures
            device.wf(),
            device.handle() == chan,
            device.slots() == Seq::<Slot>::empty(),
    {
        DigitalInput { channel: Channel::from(ChannelClass::DigitalInput, chan) }
    }

    /// Get the underlying channel handle.
    pub fn as_channel(&self) -> (chan: Handle)
        ensures
            chan == self.handle(),
    {
        self.channel.as_handle()
    }

    /// The context registered for `event`, if there is one.
    pub fn handler(&self, event: Event) -> (r: Option<Context>)
        requires
            self.wf(),
        ensures
            r == registered(self.slots(), event),
    {
        self.channel.handler(event)
    }

    /// Whether `context` may be registered: it is not null and no slot owns
    /// it.
    pub fn admits(&self, context: Context) -> (b: bool)
        requires
            self.wf(),
        ensures
            b == fresh(self.slots(), context),
    {
        self.channel.admits(context)
    }

    /// The call that sets the input mode.
    pub fn set_input_mode(&self, input_mode: InputMode) -> (call: NativeCall)
        ensures
            call == (NativeCall::SetProperty {
                handle: self.handle(),
                class: ChannelClass::DigitalInput,
                property: Property::InputMode,
                raw: input_mode.spec_code(),
            }),
    {
        NativeCall::SetProperty {
            handle: self.channel.as_handle(),
            class: ChannelClass::DigitalInput,
            property: Property::InputMode,
            raw: input_mode.code(),
        }
    }

    /// The call that reads the input mode.
    pub fn input_mode(&self) -> (call: NativeCall)
        ensures
            call == (NativeCall::GetProperty {
                handle: self.handle(),
                class: ChannelClass::DigitalInput,
                property: Property::InputMode,
            }),
    {
        NativeCall::GetProperty {
            handle: self.channel.as_handle(),
            class: ChannelClass::DigitalInput,
            property: Property::InputMode,
        }
    }

    /// The call that sets the type of power supply: the voltage that the
    /// attached sensor needs, or `PowerSupply::OFF` to save power.
    pub fn set_power_supply(&self, power_supply: PowerSupply) -> (call: NativeCall)
        ensures
            call == (NativeCall::SetProperty {
                handle: self.handle(),
                class: ChannelClass::DigitalInput,
                property: Property::PowerSupply,
                raw: power_supply.spec_code(),
            }),
    {
        NativeCall::SetProperty {
            handle: self.channel.as_handle(),
            class: ChannelClass::DigitalInput,
            property: Property::PowerSupply,
            raw: power_supply.code(),
        }
    }

    /// The call that reads the type of power supply.
    pub fn power_supply(&self) -> (call: NativeCall)
        ensures
            call == (NativeCall::GetProperty {
                handle: self.handle(),
                class: ChannelClass::DigitalInput,
                property: Property::PowerSupply,
            }),
    {
        NativeCall::GetProperty {
            handle: self.channel.as_handle(),
            class: ChannelClass::DigitalInput,
            property: Property::PowerSupply,
        }
    }

    /// The call that reads the state of the digital input channel.
    pub fn state(&self) -> (call: NativeCall)
        ensures
            call == (NativeCall::GetProperty {
                handle: self.handle(),
                class: ChannelClass::DigitalInput,
                property: Property::State,
            }),
    {
        NativeCall::GetProperty {
            handle: self.channel.as_handle(),
            class: ChannelClass::DigitalInput,
            property: Property::State,
        }
    }

    /// The call that sets the handler to receive state change callbacks: it
    /// registers the trampoline of the event with `context`.
    pub fn set_on_state_change_handler(&self, context: Context) -> (call: NativeCall)
        ensures
            call == (NativeCall::SetHandler {
                handle: self.handle(),
                event: Event::StateChange,
                context,
            }),
    {
        self.channel.set_handler(Event::StateChange, context)
    }

    /// The call that sets the handler to receive attach callbacks: it
    /// registers the trampoline of the event with `context`.
    pub fn set_on_attach_handler(&self, context: Context) -> (call: NativeCall)
        ensures
            call == (NativeCall::SetHandler {
                handle: self.handle(),
                event: Event::Attach,
                context,
            }),
    {
        self.channel.set_handler(Event::Attach, context)
    }

    /// The call that sets the handler to receive detach callbacks: it
    /// registers the trampoline of the event with `context`.
    pub fn set_on_detach_handler(&self, context: Context) -> (call: NativeCall)
        ensures
            call == (NativeCall::SetHandler {
                handle: self.handle(),
                event: Event::Detach,
                context,
            }),
    {
        self.channel.set_handler(Event::Detach, context)
    }

    /// The call that removes the state change callback.
    pub fn remove_on_state_change_handler(&self) -> (call: NativeCall)
        ensures
            call == (NativeCall::SetHandler {
                handle: self.handle(),
                event: Event::StateChange,
                context: Context { addr: 0 },
            }),
    {
        self.channel.remove_handler(Event::StateChange)
    }

    /// The call that registers the trampoline of `event` with `context`.
    pub fn set_handler(&self, event: Event, context: Context) -> (call: NativeCall)
        ensures
            call == (NativeCall::SetHandler { handle: self.handle(), event, context }),
    {
        self.channel.set_handler(event, context)
    }

    /// The call that removes the callback of `event`.
    pub fn remove_handler(&self, event: Event) -> (call: NativeCall)
        ensures
            call == (NativeCall::SetHandler {
                handle: self.handle(),
                event,
                context: Context { addr: 0 },
            }),
    {
        self.channel.remove_handler(event)
    }

    /// Settles a registration that the native library has answered with
    /// `code`: on success the slot of `event` takes `context` over and the box
    /// that it owned before is to be released; on failure the box of `context`
    /// itself is.
    pub fn handler_set(&mut self, event: Event, context: Context, code: u32) -> (s: Settlement)
        requires
            old(self).wf(),
            fresh(old(self).slots(), context),
        ensures
            final(self).wf(),
            final(self).handle() == old(self).handle(),
            s.result == ReturnCode::spec_result(code),
            code == 0 ==> final(self).slots() == after_registration(
                old(self).slots(),
                event,
                context,
            ) && s.release == registered(old(self).slots(), event),
            code != 0 ==> final(self).slots() == old(self).slots() && s.release == Some(context),
    {
        self.channel.handler_set(event, context, code)
    }

    /// Settles a removal that the native library has answered with `code`: on
    /// success the slot of `event` is emptied and the box that it owned is to
    /// be released; on failure nothing changes.
    pub fn handler_removed(&mut self, event: Event, code: u32) -> (s: Settlement)
        requires
            old(self).wf(),
        ensures
            final(self).wf(),
            final(self).handle() == old(self).handle(),
            s.result == ReturnCode::spec_result(code),
            code == 0 ==> final(self).slots() == after_removal(old(self).slots(), event)
                && s.release == registered(old(self).slots(), event),
            code != 0 ==> final(self).slots() == old(self).slots() && s.release.is_none(),
    {
        self.channel.handler_removed(event, code)
    }

    /// Tears the digital input down, given what the probe for "is it open?"
    /// answered: the close unless the probe said that the channel is not open,
    /// then the delete of the native object, then the release of every
    /// callback box.
    pub fn teardown(self, probe: Result<bool, ReturnCode>) -> (plan: Vec<Action>)
        requires
            self.wf(),
        ensures
            plan@ == teardown_plan(
                ChannelClass::DigitalInput,
                self.handle(),
                self.slots(),
                probe,
            ),
    {
        self.channel.teardown(probe)
    }
}

impl Phidget for DigitalInput {
    closed spec fn handle(&self) -> Handle {
        self.channel.handle()
    }

    fn as_handle(&self) -> (h: Handle) {
        self.channel.as_handle()
    }
}

} // verus!
