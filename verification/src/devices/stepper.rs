//! Phidget stepper motor.

use crate::callback::{
    after_registration, after_removal, exclusive, fresh, registered, Settlement, Slot,
};
use crate::channel::{teardown_plan, Channel};
use crate::errors::ReturnCode;
use crate::handle::{Context, Handle};
use crate::native::{Action, Event, NativeCall, Property, flag_value, spec_flag_value};
use crate::phidget::Phidget;
use crate::timeout::{duration_millis, spec_native_millis, timeout_millis};
use crate::types::ChannelClass;
use std::time::Duration;
use vstd::prelude::*;

verus! {

/// The control mode of a stepper.
#[derive(Debug, Clone, Copy, PartialEq, Eq, PartialOrd, Ord, Hash, Structural)]
#[allow(missing_docs)]
pub enum ControlMode {
    /// Control the motor by setting a target position.
    Step,
    /// Control the motor by selecting a target velocity (sign indicates
    /// direction). The motor will rotate continuously in the chosen direction.
    Run,
}

impl ControlMode {
    /// The native integer that stands for this mode.
    pub open spec fn spec_code(self) -> u32 {
        match self {
            ControlMode::Step => 0,
            ControlMode::Run => 1,
        }
    }

    /// Whether some mode stands for `val`.
    pub open spec fn is_code(val: u32) -> bool {
        exists|c: ControlMode| c.spec_code() == val
    }

    /// The mode that a native integer names, or `UnknownVal` for an integer
    /// that names none.
    pub open spec fn of_code(val: u32) -> Result<ControlMode, ReturnCode> {
        if Self::is_code(val) {
            Ok(choose|c: ControlMode| c.spec_code() == val)
        } else {
            Err(ReturnCode::UnknownVal)
        }
    }

    /// The native integer that stands for this mode.
    #[verifier::when_used_as_spec(spec_code)]
    pub fn code(self) -> (c: u32)
        ensures
            c == self.spec_code(),
    {
        match self {
            ControlMode::Step => 0,
            ControlMode::Run => 1,
        }
    }

    /// Converts a native integer into a mode; an integer that names none
    /// is rejected with `UnknownVal`.
    pub fn try_from(val: u32) -> (r: Result<ControlMode, ReturnCode>)
        ensures
            r == Self::of_code(val),
            r matches Ok(c) ==> c.spec_code() == val,
            r is Err <==> !Self::is_code(val),
    {
        let r = match val {
            0 => Ok(ControlMode::Step),
            1 => Ok(ControlMode::Run),
            _ => Err(ReturnCode::UnknownVal),
        };
        proof {
            if let Ok(c) = r {
                assert(c.spec_code() == val);
                Self::lemma_code_injective(c, Self::of_code(val)->Ok_0);
            }
        }
        r
    }

    /// Reads a reply that carries a mode: the failure that `code` names, or
    /// else the mode that `raw` names.
    pub fn from_reply(code: u32, raw: u32) -> (r: Result<ControlMode, ReturnCode>)
        ensures
            r == (match ReturnCode::spec_result(code) {
                Err(e) => Err::<ControlMode, ReturnCode>(e),
                Ok(_) => Self::of_code(raw),
            }),
    {
        match ReturnCode::result(code) {
            Err(e) => Err(e),
            Ok(_) => Self::try_from(raw),
        }
    }

    /// No two modes share a native integer.
    pub proof fn lemma_code_injective(a: ControlMode, b: ControlMode)
        requires
            a.spec_code() == b.spec_code(),
        ensures
            a == b,
    {
    }

    /// The native integer of a mode converts back into that mode.
    pub proof fn lemma_code_round_trip(c: ControlMode)
        ensures
            Self::of_code(c.spec_code()) == Ok::<_, ReturnCode>(c),
    {
        assert(Self::is_code(c.spec_code()));
        Self::lemma_code_injective(Self::of_code(c.spec_code())->Ok_0, c);
    }
}

/// Phidget stepper motor: the owner of one native channel of its kind and of the
/// callbacks registered on it.
pub struct Stepper {
    channel: Channel,
}

impl Stepper {
    /// The callback slots that are set.
    pub closed spec fn slots(&self) -> Seq<Slot> {
        self.channel.slots()
    }

    /// The wrapper is well formed when it is a well-formed channel of its own
    /// class.
    pub closed spec fn wf(&self) -> bool {
        self.channel.wf() && self.channel.class() == ChannelClass::Stepper
    }

    /// A well-formed wrapper has a handle that is not null, and its slots
    /// keep the rule of exclusive ownership.
    pub proof fn lemma_wf(&self)
        requires
            self.wf(),
        ensures
            !self.handle().is_null(),
            exclusive(self.slots()),
    {
        self.channel.lemma_wf();
    }

    /// The call that creates the native stepper motor.
    pub fn create() -> (call: NativeCall)
        ensures
            call == (NativeCall::Create { class: ChannelClass::Stepper }),
    {
        Channel::create(ChannelClass::Stepper)
    }

    /// Completes the creation of a stepper motor, given the code with which the
    /// native library answered the create call and the handle that it gave.
    ///
    /// A failed call gives its failure, and a call that succeeded but gave the
    /// null handle gives `NoMemory`. Otherwise the wrapper owns the new native
    /// object, and no callback is registered yet.
    pub fn new(code: u32, chan: Handle) -> (r: Result<Stepper, ReturnCode>)
        ensures
            code != 0 ==> r is Err && r->Err_0 == ReturnCode::of_code(code),
            code == 0 && chan.is_null() ==> r is Err && r->Err_0 == ReturnCode::NoMemory,
            code == 0 && !chan.is_null() ==> r is Ok && r->Ok_0.wf() && r->Ok_0.handle() == chan
                && r->Ok_0.slots() == Seq::<Slot>::empty(),
    {
        match Channel::new(ChannelClass::Stepper, code, chan) {
            Ok(channel) => Ok(Stepper { channel }),
            Err(e) => Err(e),
        }
    }

    /// Takes ownership of a native stepper motor that exists. No callback is
    /// registered yet.
    pub fn from(chan: Handle) -> (device: Stepper)
        requires
            !chan.is_null(),
        ensures
            device.wf(),
            device.handle() == chan,
            device.slots() == Seq::<Slot>::empty(),
    {
        Stepper { channel: Channel::from(ChannelClass::Stepper, chan) }
    }

    /// Get the underlying channel handle.
    pub fn as_channel(&self) -> (chan: Handle)
        ensures
            chan == self.handle(),
    {
        self.channel.as_handle()
    }

    /// The context registered for `event`, if there is one.
    pub fn handler(&self, event: Event) -> (r: Option<Context>)
        requires
            self.wf(),
        ensures
            r == registered(self.slots(), event),
    {
        self.channel.handler(event)
    }

    /// Whether `context` may be registered: it is not null and no slot owns
    /// it.
    pub fn admits(&self, context: Context) -> (b: bool)
        requires
            self.wf(),
        ensures
            b == fresh(self.slots(), context),
    {
        self.channel.admits(context)
    }

    /// The call that enables the failsafe for the channel with the specified
    /// failsafe time. A time whose milliseconds do not fit in 32 bits is
    /// rejected with `InvalidArg`, and no call is made.
    pub fn enable_failsafe(&self, failsafe_time: Duration) -> (r: Result<NativeCall, ReturnCode>)
        ensures
            r == (match spec_native_millis(duration_millis(failsafe_time)) {
                Ok(failsafe_ms) => Ok::<NativeCall, ReturnCode>(
                    NativeCall::EnableFailsafe {
                        handle: self.handle(),
                        class: ChannelClass::Stepper,
                        failsafe_ms,
                    },
                ),
                Err(e) => Err(e),
            }),
    {
        match timeout_millis(failsafe_time) {
            Ok(failsafe_ms) => Ok(
                NativeCall::EnableFailsafe {
                    handle: self.channel.as_handle(),
                    class: ChannelClass::Stepper,
                    failsafe_ms,
                },
            ),
            Err(e) => Err(e),
        }
    }

    /// The call that reads the minimum failsafe time.
    pub fn min_failsafe_time(&self) -> (call: NativeCall)
        ensures
            call == (NativeCall::GetProperty {
                handle: self.handle(),
                class: ChannelClass::Stepper,
                property: Property::MinFailsafeTime,
            }),
    {
        NativeCall::GetProperty {
            handle: self.channel.as_handle(),
            class: ChannelClass::Stepper,
            property: Property::MinFailsafeTime,
        }
    }

    /// The call that reads the maximum failsafe time.
    pub fn max_failsafe_time(&self) -> (call: NativeCall)
        ensures
            call == (NativeCall::GetProperty {
                handle: self.handle(),
                class: ChannelClass::Stepper,
                property: Property::MaxFailsafeTime,
            }),
    {
        NativeCall::GetProperty {
            handle: self.channel.as_handle(),
            class: ChannelClass::Stepper,
            property: Property::MaxFailsafeTime,
        }
    }

    /// The call that resets the failsafe timer.
    pub fn reset_failsafe(&self) -> (call: NativeCall)
        ensures
            call == (NativeCall::ResetFailsafe {
                handle: self.handle(),
                class: ChannelClass::Stepper,
            }),
    {
        NativeCall::ResetFailsafe {
            handle: self.channel.as_handle(),
            class: ChannelClass::Stepper,
        }
    }

    /// The call that sets the control mode.
    pub fn set_control_mode(&self, control_mode: ControlMode) -> (call: NativeCall)
        ensures
            call == (NativeCall::SetProperty {
                handle: self.handle(),
                class: ChannelClass::Stepper,
                property: Property::ControlMode,
                raw: control_mode.spec_code(),
            }),
    {
        NativeCall::SetProperty {
            handle: self.channel.as_handle(),
            class: ChannelClass::Stepper,
            property: Property::ControlMode,
            raw: control_mode.code(),
        }
    }

    /// The call that reads the control mode.
    pub fn control_mode(&self) -> (call: NativeCall)
        ensures
            call == (NativeCall::GetProperty {
                handle: self.handle(),
                class: ChannelClass::Stepper,
                property: Property::ControlMode,
            }),
    {
        NativeCall::GetProperty {
            handle: self.channel.as_handle(),
            class: ChannelClass::Stepper,
            property: Property::ControlMode,
        }
    }

    /// The call that sets the data interval, in milliseconds.
    pub fn set_data_interval(&self, data_interval: u32) -> (call: NativeCall)
        ensures
            call == (NativeCall::SetProperty {
                handle: self.handle(),
                class: ChannelClass::Stepper,
                property: Property::DataInterval,
                raw: data_interval,
            }),
    {
        NativeCall::SetProperty {
            handle: self.channel.as_handle(),
            class: ChannelClass::Stepper,
            property: Property::DataInterval,
            raw: data_interval,
        }
    }

    /// The call that reads the data interval.
    pub fn data_interval(&self) -> (call: NativeCall)
        ensures
            call == (NativeCall::GetProperty {
                handle: self.handle(),
                class: ChannelClass::Stepper,
                property: Property::DataInterval,
            }),
    {
        NativeCall::GetProperty {
            handle: self.channel.as_handle(),
            class: ChannelClass::Stepper,
            property: Property::DataInterval,
        }
    }

    /// The call that reads the minimum data interval.
    pub fn min_data_interval(&self) -> (call: NativeCall)
        ensures
            call == (NativeCall::GetProperty {
                handle: self.handle(),
                class: ChannelClass::Stepper,
                property: Property::MinDataInterval,
            }),
    {
        NativeCall::GetProperty {
            handle: self.channel.as_handle(),
            class: ChannelClass::Stepper,
            property: Property::MinDataInterval,
        }
    }

    /// The call that reads the maximum data interval.
    pub fn max_data_interval(&self) -> (call: NativeCall)
        ensures
            call == (NativeCall::GetProperty {
                handle: self.handle(),
                class: ChannelClass::Stepper,
                property: Property::MaxDataInterval,
            }),
    {
        NativeCall::GetProperty {
            handle: self.channel.as_handle(),
            class: ChannelClass::Stepper,
            property: Property::MaxDataInterval,
        }
    }

    /// The call that engages or releases the motor.
    pub fn set_engaged(&self, engaged: bool) -> (call: NativeCall)
        ensures
            call == (NativeCall::SetProperty {
                handle: self.handle(),
                class: ChannelClass::Stepper,
                property: Property::Engaged,
                raw: spec_flag_value(engaged),
            }),
    {
        NativeCall::SetProperty {
            handle: self.channel.as_handle(),
            class: ChannelClass::Stepper,
            property: Property::Engaged,
            raw: flag_value(engaged),
        }
    }

    /// The call that asks whether the motor is engaged.
    pub fn engaged(&self) -> (call: NativeCall)
        ensures
            call == (NativeCall::GetProperty {
                handle: self.handle(),
                class: ChannelClass::Stepper,
                property: Property::Engaged,
            }),
    {
        NativeCall::GetProperty {
            handle: self.channel.as_handle(),
            class: ChannelClass::Stepper,
            property: Property::Engaged,
        }
    }

    /// The call that asks whether the motor is moving.
    pub fn is_moving(&self) -> (call: NativeCall)
        ensures
            call == (NativeCall::GetProperty {
                handle: self.handle(),
                class: ChannelClass::Stepper,
                property: Property::IsMoving,
            }),
    {
        NativeCall::GetProperty {
            handle: self.channel.as_handle(),
            class: ChannelClass::Stepper,
            property: Property::IsMoving,
        }
    }

    /// The call that sets the handler to receive position change callbacks: it
    /// registers the trampoline of the event with `context`.
    pub fn set_on_position_change_handler(&self, context: Context) -> (call: NativeCall)
        ensures
            call == (NativeCall::SetHandler {
                handle: self.handle(),
                event: Event::PositionChange,
                context,
            }),
    {
        self.channel.set_handler(Event::PositionChange, context)
    }

    /// The call that sets the handler to receive velocity change callbacks: it
    /// registers the trampoline of the event with `context`.
    pub fn set_on_velocity_change_handler(&self, context: Context) -> (call: NativeCall)
        ensures
            call == (NativeCall::SetHandler {
                handle: self.handle(),
                event: Event::VelocityChange,
                context,
            }),
    {
        self.channel.set_handler(Event::VelocityChange, context)
    }

    /// The call that sets the handler to receive stop callbacks: it
    /// registers the trampoline of the event with `context`.
    pub fn set_on_stopped_handler(&self, context: Context) -> (call: NativeCall)
        ensures
            call == (NativeCall::SetHandler {
                handle: self.handle(),
                event: Event::Stopped,
                context,
            }),
    {
        self.channel.set_handler(Event::Stopped, context)
    }

    /// The call that sets the handler to receive attach callbacks: it
    /// registers the trampoline of the event with `context`.
    pub fn set_on_attach_handler(&self, context: Context) -> (call: NativeCall)
        ensures
            call == (NativeCall::SetHandler {
                handle: self.handle(),
                event: Event::Attach,
                context,
            }),
    {
        self.channel.set_handler(Event::Attach, context)
    }

    /// The call that sets the handler to receive detach callbacks: it
    /// registers the trampoline of the event with `context`.
    pub fn set_on_detach_handler(&self, context: Context) -> (call: NativeCall)
        ensures
            call == (NativeCall::SetHandler {
                handle: self.handle(),
                event: Event::Detach,
                context,
            }),
    {
        self.channel.set_handler(Event::Detach, context)
    }

    /// The call that registers the trampoline of `event` with `context`.
    pub fn set_handler(&self, event: Event, context: Context) -> (call: NativeCall)
        ensures
            call == (NativeCall::SetHandler { handle: self.handle(), event, context }),
    {
        self.channel.set_handler(event, context)
    }

    /// The call that removes the callback of `event`.
    pub fn remove_handler(&self, event: Event) -> (call: NativeCall)
        ensures
            call == (NativeCall::SetHandler {
                handle: self.handle(),
                event,
                context: Context { addr: 0 },
            }),
    {
        self.channel.remove_handler(event)
    }

    /// Settles a registration that the native library has answered with
    /// `code`: on success the slot of `event` takes `context` over and the box
    /// that it owned before is to be released; on failure the box of `context`
    /// itself is.
    pub fn handler_set(&mut self, event: Event, context: Context, code: u32) -> (s: Settlement)
        requires
            old(self).wf(),
            fresh(old(self).slots(), context),
        ensures
            final(self).wf(),
            final(self).handle() == old(self).handle(),
            s.result == ReturnCode::spec_result(code),
            code == 0 ==> final(self).slots() == after_registration(
                old(self).slots(),
                event,
                context,
            ) && s.release == registered(old(self).slots(), event),
            code != 0 ==> final(self).slots() == old(self).slots() && s.release == Some(context),
    {
        self.channel.handler_set(event, context, code)
    }

    /// Settles a removal that the native library has answered with `code`: on
    /// success the slot of `event` is emptied and the box that it owned is to
    /// be released; on failure nothing changes.
    pub fn handler_removed(&mut self, event: Event, code: u32) -> (s: Settlement)
        requires
            old(self).wf(),
        ensures
            final(self).wf(),
            final(self).handle() == old(self).handle(),
            s.result == ReturnCode::spec_result(code),
            code == 0 ==> final(self).slots() == after_removal(old(self).slots(), event)
                && s.release == registered(old(self).slots(), event),
            code != 0 ==> final(self).slots() == old(self).slots() && s.release.is_none(),
    {
        self.channel.handler_removed(event, code)
    }

    /// Tears the stepper motor down, given what the probe for "is it open?"
    /// answered: the close unless the probe said that the channel is not open,
    /// then the delete of the native object, then the release of every
    /// callback box.
    pub fn teardown(self, probe: Result<bool, ReturnCode>) -> (plan: Vec<Action>)
        requires
            self.wf(),
        ensures
            plan@ == teardown_plan(
                ChannelClass::Stepper,
                self.handle(),
                self.slots(),
                probe,
            ),
    {
        self.channel.teardown(probe)
    }
}

impl Phidget for Stepper {
    closed spec fn handle(&self) -> Handle {
        self.channel.handle()
    }

    fn as_handle(&self) -> (h: Handle) {
        self.channel.as_handle()
    }
}

} // verus!
