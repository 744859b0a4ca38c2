//! The owning wrapper of a native channel.
//!
//! A channel owns one native handle, which is never null while the channel
//! lives, and the boxes of the callbacks that were registered on it. Whether
//! the channel is open is never tracked here: the native library is asked,
//! and is the only authority. What is tracked is ownership, so that the
//! teardown deletes the native object once and frees each box once, and frees
//! none before the delete.

use crate::callback::{
    after_registration, after_removal, exclusive, fresh, lemma_registration, lemma_released_concat,
    lemma_releases_once, lemma_removal, owns, position, registered, released, releases,
    Settlement, Slot, Slots,
};
use crate::errors::ReturnCode;
use crate::handle::{Context, Handle};
use crate::native::{Action, Event, NativeCall};
use crate::phidget::{closes_first, Phidget};
use crate::types::ChannelClass;
use vstd::prelude::*;

verus! {

/// The plan of a channel's teardown: the close, if the channel is to be closed
/// first; then the delete of the native object; then the release of every
/// callback box, in the order of the slots.
pub open spec fn teardown_plan(
    class: ChannelClass,
    handle: Handle,
    slots: Seq<Slot>,
    probe: Result<bool, ReturnCode>,
) -> Seq<Action> {
    (if closes_first(probe) {
        seq![Action::Call(NativeCall::Close { handle })]
    } else {
        seq![]
    }) + seq![Action::Call(NativeCall::Delete { class, handle })] + releases(slots)
}

/// A channel of some class: the one owner of a native handle and of the
/// callback boxes registered on it.
pub struct Channel {
    class: ChannelClass,
    handle: Handle,
    slots: Slots,
}

impl Channel {
    /// The class of the channel.
    pub closed spec fn class(&self) -> ChannelClass {
        self.class
    }

    /// The callback slots that are set, in the order in which their events
    /// were first registered.
    pub closed spec fn slots(&self) -> Seq<Slot> {
        self.slots@
    }

    /// A channel is well formed when its handle is not null and its slots
    /// keep the rule of exclusive ownership.
    pub closed spec fn wf(&self) -> bool {
        !self.handle.is_null() && self.slots.wf()
    }

    /// A well-formed channel has a handle that is not null, and its slots
    /// keep the rule of exclusive ownership.
    pub proof fn lemma_wf(&self)
        requires
            self.wf(),
        ensures
            !self.handle().is_null(),
            exclusive(self.slots()),
    {
    }

    /// The call that creates the native object of a channel of `class`.
    pub fn create(class: ChannelClass) -> (call: NativeCall)
        ensures
            call == (NativeCall::Create { class }),
    {
        NativeCall::Create { class }
    }

    /// Completes the creation of a channel, given the code with which the
    /// native library answered the create call and the handle that it gave.
    ///
    /// A failed call gives its failure. A call that succeeded but gave the
    /// null handle gives `NoMemory`: there is no native object to own.
    /// Otherwise the channel owns the new native object, and no callback is
    /// registered yet.
    pub fn new(class: ChannelClass, code: u32, handle: Handle) -> (r: Result<Channel, ReturnCode>)
        ensures
            code != 0 ==> r is Err && r->Err_0 == ReturnCode::of_code(code),
            code == 0 && handle.is_null() ==> r is Err && r->Err_0 == ReturnCode::NoMemory,
            code == 0 && !handle.is_null() ==> r is Ok && r->Ok_0.wf() && r->Ok_0.class()
                == class && r->Ok_0.handle() == handle && r->Ok_0.slots() == Seq::<
                Slot,
            >::empty(),
    {
        match ReturnCode::result(code) {
            Err(e) => Err(e),
            Ok(_) => if handle.is_null() {
                Err(ReturnCode::NoMemory)
            } else {
                Ok(Channel { class, handle, slots: Slots::new() })
            },
        }
    }

    /// Takes ownership of a native object that exists. No callback is
    /// registered yet.
    pub fn from(class: ChannelClass, handle: Handle) -> (channel: Channel)
        requires
            !handle.is_null(),
        ensures
            channel.wf(),
            channel.class() == class,
            channel.handle() == handle,
            channel.slots() == Seq::<Slot>::empty(),
    {
        Channel { class, handle, slots: Slots::new() }
    }

    /// The class of the channel.
    pub fn channel_kind(&self) -> (class: ChannelClass)
        ensures
            class == self.class(),
    {
        self.class
    }

    /// The context registered for `event`, if there is one.
    pub fn handler(&self, event: Event) -> (r: Option<Context>)
        requires
            self.wf(),
        ensures
            r == registered(self.slots(), event),
    {
        self.slots.get(event)
    }

    /// Whether `context` may be registered on this channel: it is not null
    /// and no slot of the channel owns it.
    pub fn admits(&self, context: Context) -> (b: bool)
        requires
            self.wf(),
        ensures
            b == fresh(self.slots(), context),
    {
        self.slots.admits(context)
    }

    /// The call that registers the trampoline of `event` with `context`.
    pub fn set_handler(&self, event: Event, context: Context) -> (call: NativeCall)
        ensures
            call == (NativeCall::SetHandler { handle: self.handle(), event, context }),
    {
        NativeCall::SetHandler { handle: self.handle, event, context }
    }

    /// Settles a registration that the native library has answered with
    /// `code`.
    ///
    /// On success the slot of `event` takes `context` over, and the box that
    /// it owned before, if any, is to be released now: the native library no
    /// longer refers to it. On failure no slot changes and the box of
    /// `context` itself is to be released.
    pub fn handler_set(&mut self, event: Event, context: Context, code: u32) -> (s: Settlement)
        requires
            old(self).wf(),
            fresh(old(self).slots(), context),
        ensures
            final(self).wf(),
            final(self).class() == old(self).class(),
            final(self).handle() == old(self).handle(),
            s.result == ReturnCode::spec_result(code),
            code == 0 ==> final(self).slots() == after_registration(
                old(self).slots(),
                event,
                context,
            ) && s.release == registered(old(self).slots(), event),
            code != 0 ==> final(self).slots() == old(self).slots() && s.release == Some(context),
    {
        self.slots.settle_registration(event, context, code)
    }

    /// The call that removes the registration of `event`: the registering
    /// call with no trampoline and the null context.
    pub fn remove_handler(&self, event: Event) -> (call: NativeCall)
        ensures
            call == (NativeCall::SetHandler {
                handle: self.handle(),
                event,
                context: Context { addr: 0 },
            }),
    {
        NativeCall::SetHandler { handle: self.handle, event, context: Context::from_addr(0) }
    }

    /// Settles a removal that the native library has answered with `code`.
    ///
    /// On success the slot of `event` is emptied and the box that it owned,
    /// if any, is to be released. On failure no slot changes and nothing is
    /// released: the native library may still deliver events to the box.
    pub fn handler_removed(&mut self, event: Event, code: u32) -> (s: Settlement)
        requires
            old(self).wf(),
        ensures
            final(self).wf(),
            final(self).class() == old(self).class(),
            final(self).handle() == old(self).handle(),
            s.result == ReturnCode::spec_result(code),
            code == 0 ==> final(self).slots() == after_removal(old(self).slots(), event)
                && s.release == registered(old(self).slots(), event),
            code != 0 ==> final(self).slots() == old(self).slots() && s.release.is_none(),
    {
        self.slots.settle_removal(event, code)
    }

    /// Tears the channel down, given what the probe for "is it open?"
    /// answered.
    ///
    /// The plan closes the channel first unless the probe said that it is not
    /// open, then deletes the native object, then releases every callback
    /// box. The return codes of the plan's calls are not looked at. After the
    /// plan the handle and every context of the channel are gone.
    pub fn teardown(self, probe: Result<bool, ReturnCode>) -> (plan: Vec<Action>)
        requires
            self.wf(),
        ensures
            plan@ == teardown_plan(self.class(), self.handle(), self.slots(), probe),
    {
        let mut plan: Vec<Action> = Vec::new();
        match probe {
            Ok(false) => {},
            _ => {
                plan.push(Action::Call(NativeCall::Close { handle: self.handle }));
            },
        }
        plan.push(Action::Call(NativeCall::Delete { class: self.class, handle: self.handle }));
        let ghost head = plan@;
        let ghost slots = self.slots@;
        let mut rest = self.slots.release_all();
        plan.append(&mut rest);
        proof {
            assert(plan@ =~= head + releases(slots));
            assert(plan@ =~= teardown_plan(self.class(), self.handle(), slots, probe));
        }
        plan
    }
}

impl Phidget for Channel {
    closed spec fn handle(&self) -> Handle {
        self.handle
    }

    fn as_handle(&self) -> (h: Handle) {
        self.handle
    }
}

/// A teardown frees each callback box that the channel owns exactly once, and
/// no other box.
pub proof fn lemma_teardown_releases_once(
    class: ChannelClass,
    handle: Handle,
    slots: Seq<Slot>,
    probe: Result<bool, ReturnCode>,
    context: Context,
)
    requires
        exclusive(slots),
    ensures
        released(teardown_plan(class, handle, slots, probe), context) == (if owns(
            slots,
            context,
        ) {
            1nat
        } else {
            0nat
        }),
{
    let head = (if closes_first(probe) {
        seq![Action::Call(NativeCall::Close { handle })]
    } else {
        seq![]
    }) + seq![Action::Call(NativeCall::Delete { class, handle })];
    assert(released(head, context) == 0) by {
        reveal_with_fuel(released, 3);
        if closes_first(probe) {
            assert(head.drop_last() =~= seq![Action::Call(NativeCall::Close { handle })]);
            assert(head.drop_last().drop_last() =~= Seq::<Action>::empty());
        } else {
            assert(head.drop_last() =~= Seq::<Action>::empty());
        }
    }
    lemma_released_concat(head, releases(slots), context);
    lemma_releases_once(slots, context);
}

/// A teardown deletes the native object exactly once, closes the channel
/// before the delete or not at all, and frees callback boxes only after the
/// delete: no box is freed while the native library may still deliver an
/// event to it.
pub proof fn lemma_teardown_order(
    class: ChannelClass,
    handle: Handle,
    slots: Seq<Slot>,
    probe: Result<bool, ReturnCode>,
)
    ensures
        ({
            let plan = teardown_plan(class, handle, slots, probe);
            let delete: int = if closes_first(probe) {
                1
            } else {
                0
            };
            &&& plan.len() == delete + 1 + slots.len()
            &&& plan[delete] == Action::Call(NativeCall::Delete { class, handle })
            &&& forall|i: int|
                0 <= i < delete ==> plan[i] == Action::Call(NativeCall::Close { handle })
            &&& forall|i: int|
                delete < i < plan.len() ==> plan[i] == (Action::ReleaseCallback {
                    event: slots[i - delete - 1].event,
                    context: slots[i - delete - 1].context,
                })
        }),
{
}

/// A callback box whose registration succeeded is freed exactly once by the
/// teardown of its channel; the box that it replaced, freed at the
/// replacement, is not freed again.
pub proof fn lemma_registered_box_released_once(
    class: ChannelClass,
    handle: Handle,
    slots: Seq<Slot>,
    event: Event,
    context: Context,
    probe: Result<bool, ReturnCode>,
)
    requires
        exclusive(slots),
        fresh(slots, context),
    ensures
        released(
            teardown_plan(class, handle, after_registration(slots, event, context), probe),
            context,
        ) == 1,
        registered(slots, event) matches Some(before) ==> released(
            teardown_plan(class, handle, after_registration(slots, event, context), probe),
            before,
        ) == 0,
{
    let after = after_registration(slots, event, context);
    lemma_registration(slots, event, context);
    lemma_teardown_releases_once(class, handle, after, probe, context);
    if let Some(before) = registered(slots, event) {
        assert(before != context) by {
            let i = position(slots, event)->Some_0;
            assert(slots[i].context == before);
        }
        lemma_teardown_releases_once(class, handle, after, probe, before);
    }
}

/// A callback box whose removal succeeded, freed at the removal, is not freed
/// again by the teardown of its channel.
pub proof fn lemma_removed_box_not_released_again(
    class: ChannelClass,
    handle: Handle,
    slots: Seq<Slot>,
    event: Event,
    probe: Result<bool, ReturnCode>,
)
    requires
        exclusive(slots),
    ensures
        registered(slots, event) matches Some(before) ==> released(
            teardown_plan(class, handle, after_removal(slots, event), probe),
            before,
        ) == 0,
{
    lemma_removal(slots, event);
    if let Some(before) = registered(slots, event) {
        lemma_teardown_releases_once(class, handle, after_removal(slots, event), probe, before);
    }
}

} // verus!
