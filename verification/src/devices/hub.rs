//! Phidget hub.

use crate::callback::{
    after_registration, after_removal, exclusive, fresh, registered, Settlement, Slot,
};
use crate::channel::{teardown_plan, Channel};
use crate::errors::ReturnCode;
use crate::handle::{Context, Handle};
use crate::native::{Action, Event, NativeCall, Property, flag_value, spec_flag_value};
use crate::phidget::Phidget;
use crate::types::ChannelClass;
use vstd::prelude::*;

verus! {

/// Possible operational modes for a hub port
#[derive(Debug, Clone, Copy, PartialEq, Eq, PartialOrd, Ord, Hash, Structural)]
#[allow(missing_docs)]
pub enum HubPortMode {
    /// Communicate with a smart VINT device
    Vint,
    /// 5V logic-level digital input
    DigitalInput,
    /// 3.3V digital output
    DigitalOutput,
    /// 0-5V voltage input for non-ratiometric sensors
    VoltageInput,
    /// 0-5V voltage input for ratiometric sensors
    VoltageRatioInput,
}

impl HubPortMode {
    /// The native integer that stands for this mode.
    pub open spec fn spec_code(self) -> u32 {
        match self {
            HubPortMode::Vint => 0,
            HubPortMode::DigitalInput => 1,
            HubPortMode::DigitalOutput => 2,
            HubPortMode::VoltageInput => 3,
            HubPortMode::VoltageRatioInput => 4,
        }
    }

    /// Whether some mode stands for `val`.
    pub open spec fn is_code(val: u32) -> bool {
        exists|c: HubPortMode| c.spec_code() == val
    }

    /// The mode that a native integer names, or `InvalidArg` for an integer
    /// that names none.
    pub open spec fn of_code(val: u32) -> Result<HubPortMode, ReturnCode> {
        if Self::is_code(val) {
            Ok(choose|c: HubPortMode| c.spec_code() == val)
        } else {
            Err(ReturnCode::InvalidArg)
        }
    }

    /// The native integer that stands for this mode.
    #[verifier::when_used_as_spec(spec_code)]
    pub fn code(self) -> (c: u32)
        ensures
            c == self.spec_code(),
    {
        match self {
            HubPortMode::Vint => 0,
            HubPortMode::DigitalInput => 1,
            HubPortMode::DigitalOutput => 2,
            HubPortMode::VoltageInput => 3,
            HubPortMode::VoltageRatioInput => 4,
        }
    }

    /// Converts a native integer into a mode; an integer that names none
    /// is rejected with `InvalidArg`.
    pub fn try_from(val: u32) -> (r: Result<HubPortMode, ReturnCode>)
        ensures
            r == Self::of_code(val),
            r matches Ok(c) ==> c.spec_code() == val,
            r is Err <==> !Self::is_code(val),
    {
        let r = match val {
            0 => Ok(HubPortMode::Vint),
            1 => Ok(HubPortMode::DigitalInput),
            2 => Ok(HubPortMode::DigitalOutput),
            3 => Ok(HubPortMode::VoltageInput),
            4 => Ok(HubPortMode::VoltageRatioInput),
            _ => Err(ReturnCode::InvalidArg),
        };
        proof {
            if let Ok(c) = r {
                assert(c.spec_code() == val);
                Self::lemma_code_injective(c, Self::of_code(val)->Ok_0);
            }
        }
        r
    }

    /// Reads a reply that carries a mode: the failure that `code` names, or
    /// else the mode that `raw` names.
    pub fn from_reply(code: u32, raw: u32) -> (r: Result<HubPortMode, ReturnCode>)
        ensures
            r == (match ReturnCode::spec_result(code) {
                Err(e) => Err::<HubPortMode, ReturnCode>(e),
                Ok(_) => Self::of_code(raw),
            }),
    {
        match ReturnCode::result(code) {
            Err(e) => Err(e),
            Ok(_) => Self::try_from(raw),
        }
    }

    /// No two modes share a native integer.
    pub proof fn lemma_code_injective(a: HubPortMode, b: HubPortMode)
        requires
            a.spec_code() == b.spec_code(),
        ensures
            a == b,
    {
    }

    /// The native integer of a mode converts back into that mode.
    pub proof fn lemma_code_round_trip(c: HubPortMode)
        ensures
            Self::of_code(c.spec_code()) == Ok::<_, ReturnCode>(c),
    {
        assert(Self::is_code(c.spec_code()));
        Self::lemma_code_injective(Self::of_code(c.spec_code())->Ok_0, c);
    }
}

/// Phidget hub: the owner of one native channel of its kind and of the
/// callbacks registered on it.
pub struct Hub {
    channel: Channel,
}

impl Hub {
    /// The callback slots that are set.
    pub closed spec fn slots(&self) -> Seq<Slot> {
        self.channel.slots()
    }

    /// The wrapper is well formed when it is a well-formed channel of its own
    /// class.
    pub closed spec fn wf(&self) -> bool {
        self.channel.wf() && self.channel.class() == ChannelClass::Hub
    }

    /// A well-formed wrapper has a handle that is not null, and its slots
    /// keep the rule of exclusive ownership.
    pub proof fn lemma_wf(&self)
        requires
            self.wf(),
        ensures
            !self.handle().is_null(),
            exclusive(self.slots()),
    {
        self.channel.lemma_wf();
    }

    /// The call that creates the native hub.
    pub fn create() -> (call: NativeCall)
        ensures
            call == (NativeCall::Create { class: ChannelClass::Hub }),
    {
        Channel::create(ChannelClass::Hub)
    }

    /// Completes the creation of a hub, given the code with which the
    /// native library answered the create call and the handle that it gave.
    ///
    /// A failed call gives its failure, and a call that succeeded but gave the
    /// null handle gives `NoMemory`. Otherwise the wrapper owns the new native
    /// object, and no callback is registered yet.
    pub fn new(code: u32, chan: Handle) -> (r: Result<Hub, ReturnCode>)
        ensures
            code != 0 ==> r is Err && r->Err_0 == ReturnCode::of_code(code),
            code == 0 && chan.is_null() ==> r is Err && r->Err_0 == ReturnCode::NoMemory,
            code == 0 && !chan.is_null() ==> r is Ok && r->Ok_0.wf() && r->Ok_0.handle() == chan
                && r->Ok_0.slots() == Seq::<Slot>::empty(),
    {
        match Channel::new(ChannelClass::Hub, code, chan) {
            Ok(channel) => Ok(Hub { channel }),
            Err(e) => Err(e),
        }
    }

    /// Takes ownership of a native hub that exists. No callback is
    /// registered yet.
    pub fn from(chan: Handle) -> (device: Hub)
        requires
            !chan.is_null(),
        ensures
            device.wf(),
            device.handle() == chan,
            device.slots() == Seq::<Slot>::empty(),
    {
        Hub { channel: Channel::from(ChannelClass::Hub, chan) }
    }

    /// Get the underlying channel handle.
    pub fn as_channel(&self) -> (chan: Handle)
        ensures
            chan == self.handle(),
    {
        self.channel.as_handle()
    }

    /// The context registered for `event`, if there is one.
    pub fn handler(&self, event: Event) -> (r: Option<Context>)
        requires
            self.wf(),
        ensures
            r == registered(self.slots(), event),
    {
        self.channel.handler(event)
    }

    /// Whether `context` may be registered: it is not null and no slot owns
    /// it.
    pub fn admits(&self, context: Context) -> (b: bool)
        requires
            self.wf(),
        ensures
            b == fresh(self.slots(), context),
    {
        self.channel.admits(context)
    }

    /// The call that reads the mode of the specified hub port.
    pub fn port_mode(&self, port: i32) -> (call: NativeCall)
        ensures
            call == (NativeCall::GetPortProperty {
                handle: self.handle(),
                port,
                property: Property::PortMode,
            }),
    {
        NativeCall::GetPortProperty {
            handle: self.channel.as_handle(),
            port,
            property: Property::PortMode,
        }
    }

    /// The call that sets the mode of the specified hub port.
    pub fn set_port_mode(&self, port: i32, mode: HubPortMode) -> (call: NativeCall)
        ensures
            call == (NativeCall::SetPortProperty {
                handle: self.handle(),
                port,
                property: Property::PortMode,
                raw: mode.spec_code(),
            }),
    {
        NativeCall::SetPortProperty {
            handle: self.channel.as_handle(),
            port,
            property: Property::PortMode,
            raw: mode.code(),
        }
    }

    /// The call that asks if power is enabled for this VINT port.
    pub fn is_port_power_enabled(&self, port: i32) -> (call: NativeCall)
        ensures
            call == (NativeCall::GetPortProperty {
                handle: self.handle(),
                port,
                property: Property::PortPower,
            }),
    {
        NativeCall::GetPortProperty {
            handle: self.channel.as_handle(),
            port,
            property: Property::PortPower,
        }
    }

    /// The call that enables or disables power to the VINT hub port.
    pub fn enable_port_power(&self, port: i32, on: bool) -> (call: NativeCall)
        ensures
            call == (NativeCall::SetPortProperty {
                handle: self.handle(),
                port,
                property: Property::PortPower,
                raw: spec_flag_value(on),
            }),
    {
        NativeCall::SetPortProperty {
            handle: self.channel.as_handle(),
            port,
            property: Property::PortPower,
            raw: flag_value(on),
        }
    }

    /// The call that enables or disables Auto Set Speed on the hub port. When
    /// enabled, and a supported VINT device is attached, the port speed is set
    /// to the fastest reliable speed.
    pub fn enable_port_auto_set_speed(&self, port: i32, on: bool) -> (call: NativeCall)
        ensures
            call == (NativeCall::SetPortProperty {
                handle: self.handle(),
                port,
                property: Property::PortAutoSetSpeed,
                raw: spec_flag_value(on),
            }),
    {
        NativeCall::SetPortProperty {
            handle: self.channel.as_handle(),
            port,
            property: Property::PortAutoSetSpeed,
            raw: flag_value(on),
        }
    }

    /// The call that asks if this VINT port supports Auto Set Speed.
    pub fn port_supports_auto_set_speed(&self, port: i32) -> (call: NativeCall)
        ensures
            call == (NativeCall::GetPortProperty {
                handle: self.handle(),
                port,
                property: Property::PortSupportsAutoSetSpeed,
            }),
    {
        NativeCall::GetPortProperty {
            handle: self.channel.as_handle(),
            port,
            property: Property::PortSupportsAutoSetSpeed,
        }
    }

    /// The call that asks if the communication speed of this VINT port can
    /// be set.
    pub fn port_supports_set_speed(&self, port: i32) -> (call: NativeCall)
        ensures
            call == (NativeCall::GetPortProperty {
                handle: self.handle(),
                port,
                property: Property::PortSupportsSetSpeed,
            }),
    {
        NativeCall::GetPortProperty {
            handle: self.channel.as_handle(),
            port,
            property: Property::PortSupportsSetSpeed,
        }
    }

    /// The call that sets the handler to receive attach callbacks: it
    /// registers the trampoline of the event with `context`.
    pub fn set_on_attach_handler(&self, context: Context) -> (call: NativeCall)
        ensures
            call == (NativeCall::SetHandler {
                handle: self.handle(),
                event: Event::Attach,
                context,
            }),
    {
        self.channel.set_handler(Event::Attach, context)
    }

    /// The call that sets the handler to receive detach callbacks: it
    /// registers the trampoline of the event with `context`.
    pub fn set_on_detach_handler(&self, context: Context) -> (call: NativeCall)
        ensures
            call == (NativeCall::SetHandler {
                handle: self.handle(),
                event: Event::Detach,
                context,
            }),
    {
        self.channel.set_handler(Event::Detach, context)
    }

    /// The call that registers the trampoline of `event` with `context`.
    pub fn set_handler(&self, event: Event, context: Context) -> (call: NativeCall)
        ensures
            call == (NativeCall::SetHandler { handle: self.handle(), event, context }),
    {
        self.channel.set_handler(event, context)
    }

    /// The call that removes the callback of `event`.
    pub fn remove_handler(&self, event: Event) -> (call: NativeCall)
        ensures
            call == (NativeCall::SetHandler {
                handle: self.handle(),
                event,
                context: Context { addr: 0 },
            }),
    {
        self.channel.remove_handler(event)
    }

    /// Settles a registration that the native library has answered with
    /// `code`: on success the slot of `event` takes `context` over and the box
    /// that it owned before is to be released; on failure the box of `context`
    /// itself is.
    pub fn handler_set(&mut self, event: Event, context: Context, code: u32) -> (s: Settlement)
        requires
            old(self).wf(),
            fresh(old(self).slots(), context),
        ensures
            final(self).wf(),
            final(self).handle() == old(self).handle(),
            s.result == ReturnCode::spec_result(code),
            code == 0 ==> final(self).slots() == after_registration(
                old(self).slots(),
                event,
                context,
            ) && s.release == registered(old(self).slots(), event),
            code != 0 ==> final(self).slots() == old(self).slots() && s.release == Some(context),
    {
        self.channel.handler_set(event, context, code)
    }

    /// Settles a removal that the native library has answered with `code`: on
    /// success the slot of `event` is emptied and the box that it owned is to
    /// be released; on failure nothing changes.
    pub fn handler_removed(&mut self, event: Event, code: u32) -> (s: Settlement)
        requires
            old(self).wf(),
        ensures
            final(self).wf(),
            final(self).handle() == old(self).handle(),
            s.result == ReturnCode::spec_result(code),
            code == 0 ==> final(self).slots() == after_removal(old(self).slots(), event)
                && s.release == registered(old(self).slots(), event),
            code != 0 ==> final(self).slots() == old(self).slots() && s.release.is_none(),
    {
        self.channel.handler_removed(event, code)
    }

    /// Tears the hub down, given what the probe for "is it open?"
    /// answered: the close unless the probe said that the channel is not open,
    /// then the delete of the native object, then the release of every
    /// callback box.
    pub fn teardown(self, probe: Result<bool, ReturnCode>) -> (plan: Vec<Action>)
        requires
            self.wf(),
        ensures
            plan@ == teardown_plan(
                ChannelClass::Hub,
                self.handle(),
                self.slots(),
                probe,
            ),
    {
        self.channel.teardown(probe)
    }
}

impl Phidget for Hub {
    closed spec fn handle(&self) -> Handle {
        self.channel.handle()
    }

    fn as_handle(&self) -> (h: Handle) {
        self.channel.as_handle()
    }
}

} // verus!
