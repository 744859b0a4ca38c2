//! Phidget humidity sensor.

use crate::callback::{
    after_registration, after_removal, exclusive, fresh, registered, Settlement, Slot,
};
use crate::channel::{teardown_plan, Channel};
use crate::errors::ReturnCode;
use crate::handle::{Context, Handle};
use crate::native::{Action, Event, NativeCall};
use crate::phidget::Phidget;
use crate::types::ChannelClass;
use vstd::prelude::*;

verus! {

/// Phidget humidity sensor: the owner of one native channel of its kind and of the
/// callbacks registered on it.
pub struct HumiditySensor {
    channel: Channel,
}

impl HumiditySensor {
    /// The callback slots that are set.
    pub closed spec fn slots(&self) -> Seq<Slot> {
        self.channel.slots()
    }

    /// The wrapper is well formed when it is a well-formed channel of its own
    /// class.
    pub closed spec fn wf(&self) -> bool {
        self.channel.wf() && self.channel.class() == ChannelClass::HumiditySensor
    }

    /// A well-formed wrapper has a handle that is not null, and its slots
    /// keep the rule of exclusive ownership.
    pub proof fn lemma_wf(&self)
        requires
            self.wf(),
        ensures
            !self.handle().is_null(),
            exclusive(self.slots()),
    {
        self.channel.lemma_wf();
    }

    /// The call that creates the native humidity sensor.
    pub fn create() -> (call: NativeCall)
        ensures
            call == (NativeCall::Create { class: ChannelClass::HumiditySensor }),
    {
        Channel::create(ChannelClass::HumiditySensor)
    }

    /// Completes the creation of a humidity sensor, given the code with which the
    /// native library answered the create call and the handle that it gave.
    ///
    /// A failed call gives its failure, and a call that succeeded but gave the
    /// null handle gives `NoMemory`. Otherwise the wrapper owns the new native
    /// object, and no callback is registered yet.
    pub fn new(code: u32, chan: Handle) -> (r: Result<HumiditySensor, ReturnCode>)
        ensures
            code != 0 ==> r is Err && r->Err_0 == ReturnCode::of_code(code),
            code == 0 && chan.is_null() ==> r is Err && r->Err_0 == ReturnCode::NoMemory,
            code == 0 && !chan.is_null() ==> r is Ok && r->Ok_0.wf() && r->Ok_0.handle() == chan
                && r->Ok_0.slots() == Seq::<Slot>::empty(),
    {
        match Channel::new(ChannelClass::HumiditySensor, code, chan) {
            Ok(channel) => Ok(HumiditySensor { channel }),
            Err(e) => Err(e),
        }
    }

    /// Takes ownership of a native humidity sensor that exists. No callback is
    /// registered yet.
    pub fn from(chan: Handle) -> (device: HumiditySensor)
        requires
            !chan.is_null(),
        ensures
            device.wf(),
            device.handle() == chan,
            device.slots() == Seq::<Slot>::empty(),
    {
        HumiditySensor { channel: Channel::from(ChannelClass::HumiditySensor, chan) }
    }

    /// Get the underlying channel handle.
    pub fn as_channel(&self) -> (chan: Handle)
        ensures
            chan == self.handle(),
    {
        self.channel.as_handle()
    }

    /// The context registered for `event`, if there is one.
    pub fn handler(&self, event: Event) -> (r: Option<Context>)
        requires
            self.wf(),
        ensures
            r == registered(self.slots(), event),
    {
        self.channel.handler(event)
    }

    /// Whether `context` may be registered: it is not null and no slot owns
    /// it.
    pub fn admits(&self, context: Context) -> (b: bool)
        requires
            self.wf(),
        ensures
            b == fresh(self.slots(), context),
    {
        self.channel.admits(context)
    }

    /// The call that sets the handler to receive humidity change callbacks: it
    /// registers the trampoline of the event with `context`.
    pub fn set_on_humidity_change_handler(&self, context: Context) -> (call: NativeCall)
        ensures
            call == (NativeCall::SetHandler {
                handle: self.handle(),
                event: Event::HumidityChange,
                context,
            }),
    {
        self.channel.set_handler(Event::HumidityChange, context)
    }

    /// The call that sets the handler to receive attach callbacks: it
    /// registers the trampoline of the event with `context`.
    pub fn set_on_attach_handler(&self, context: Context) -> (call: NativeCall)
        ensures
            call == (NativeCall::SetHandler {
                handle: self.handle(),
                event: Event::Attach,
                context,
            }),
    {
        self.channel.set_handler(Event::Attach, context)
    }

    /// The call that sets the handler to receive detach callbacks: it
    /// registers the trampoline of the event with `context`.
    pub fn set_on_detach_handler(&self, context: Context) -> (call: NativeCall)
        ensures
            call == (NativeCall::SetHandler {
                handle: self.handle(),
                event: Event::Detach,
                context,
            }),
    {
        self.channel.set_handler(Event::Detach, context)
    }

    /// The call that removes the humidity change callback.
    pub fn remove_on_humidity_change_handler(&self) -> (call: NativeCall)
        ensures
            call == (NativeCall::SetHandler {
                handle: self.handle(),
                event: Event::HumidityChange,
                context: Context { addr: 0 },
            }),
    {
        self.channel.remove_handler(Event::HumidityChange)
    }

    /// The call that registers the trampoline of `event` with `context`.
    pub fn set_handler(&self, event: Event, context: Context) -> (call: NativeCall)
        ensures
            call == (NativeCall::SetHandler { handle: self.handle(), event, context }),
    {
        self.channel.set_handler(event, context)
    }

    /// The call that removes the callback of `event`.
    pub fn remove_handler(&self, event: Event) -> (call: NativeCall)
        ensures
            call == (NativeCall::SetHandler {
                handle: self.handle(),
                event,
                context: Context { addr: 0 },
            }),
    {
        self.channel.remove_handler(event)
    }

    /// Settles a registration that the native library has answered with
    /// `code`: on success the slot of `event` takes `context` over and the box
    /// that it owned before is to be released; on failure the box of `context`
    /// itself is.
    pub fn handler_set(&mut self, event: Event, context: Context, code: u32) -> (s: Settlement)
        requires
            old(self).wf(),
            fresh(old(self).slots(), context),
        ensures
            final(self).wf(),
            final(self).handle() == old(self).handle(),
            s.result == ReturnCode::spec_result(code),
            code == 0 ==> final(self).slots() == after_registration(
                old(self).slots(),
                event,
                context,
            ) && s.release == registered(old(self).slots(), event),
            code != 0 ==> final(self).slots() == old(self).slots() && s.release == Some(context),
    {
        self.channel.handler_set(event, context, code)
    }

    /// Settles a removal that the native library has answered with `code`: on
    /// success the slot of `event` is emptied and the box that it owned is to
    /// be released; on failure nothing changes.
    pub fn handler_removed(&mut self, event: Event, code: u32) -> (s: Settlement)
        requires
            old(self).wf(),
        ensures
            final(self).wf(),
            final(self).handle() == old(self).handle(),
            s.result == ReturnCode::spec_result(code),
            code == 0 ==> final(self).slots() == after_removal(old(self).slots(), event)
                && s.release == registered(old(self).slots(), event),
            code != 0 ==> final(self).slots() == old(self).slots() && s.release.is_none(),
    {
        self.channel.handler_removed(event, code)
    }

    /// Tears the humidity sensor down, given what the probe for "is it open?"
    /// answered: the close unless the probe said that the channel is not open,
    /// then the delete of the native object, then the release of every
    /// callback box.
    pub fn teardown(self, probe: Result<bool, ReturnCode>) -> (plan: Vec<Action>)
        requires
            self.wf(),
        ensures
            plan@ == teardown_plan(
                ChannelClass::HumiditySensor,
                self.handle(),
                self.slots(),
                probe,
            ),
    {
        self.channel.teardown(probe)
    }
}

impl Phidget for HumiditySensor {
    closed spec fn handle(&self) -> Handle {
        self.channel.handle()
    }

    fn as_handle(&self) -> (h: Handle) {
        self.channel.as_handle()
    }
}

} // verus!
