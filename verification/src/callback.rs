//! The callback box protocol: which slot owns which boxed callback, and when
//! a box is to be freed.
//!
//! A callback is boxed by the caller and is known here by its [`Context`].
//! From the moment its registration succeeds until its release the context is
//! owned by exactly one slot. A box is released at three moments only: when
//! its own registration fails, when another callback takes over its slot or
//! its removal succeeds, and when the owner of the slots is torn down.

use crate::errors::ReturnCode;
use crate::handle::{Context, Handle};
use crate::native::{Action, Event};
use crate::phidget::{Phidget, PhidgetRef};
use vstd::prelude::*;

verus! {

/// One registered callback: the event it is registered for and its context.
#[derive(Debug, Clone, Copy, PartialEq, Eq, Hash, Structural)]
pub struct Slot {
    /// The event that the callback answers.
    pub event: Event,
    /// The context of the boxed callback.
    pub context: Context,
}

/// What the caller owes after a registration or a removal was answered.
#[derive(Debug, Clone, Copy)]
pub struct Settlement {
    /// The result of the operation.
    pub result: Result<(), ReturnCode>,
    /// The box that is to be freed now, if any. It was registered for the
    /// event of the operation.
    pub release: Option<Context>,
}

/// The position of the slot of `event`, if it has one.
pub open spec fn position(slots: Seq<Slot>, event: Event) -> Option<int> {
    if exists|i: int| 0 <= i < slots.len() && slots[i].event == event {
        Some(choose|i: int| 0 <= i < slots.len() && slots[i].event == event)
    } else {
        None
    }
}

/// The context registered for `event`, if there is one.
pub open spec fn registered(slots: Seq<Slot>, event: Event) -> Option<Context> {
    match position(slots, event) {
        Some(i) => Some(slots[i].context),
        None => None,
    }
}

/// Whether some slot owns `context`.
pub open spec fn owns(slots: Seq<Slot>, context: Context) -> bool {
    exists|i: int| 0 <= i < slots.len() && slots[i].context == context
}

/// The rule of exclusive ownership: no event has two slots, no context is
/// owned twice, and no slot owns the null context.
pub open spec fn exclusive(slots: Seq<Slot>) -> bool {
    &&& forall|i: int, j: int|
        0 <= i < j < slots.len() ==> slots[i].event != slots[j].event
    &&& forall|i: int, j: int|
        0 <= i < j < slots.len() ==> slots[i].context != slots[j].context
    &&& forall|i: int| 0 <= i < slots.len() ==> !slots[i].context.is_null()
}

/// Whether `context` may be registered: it is not null and no slot owns it.
pub open spec fn fresh(slots: Seq<Slot>, context: Context) -> bool {
    !context.is_null() && !owns(slots, context)
}

/// The slots after the registration of `context` for `event` succeeded: the
/// slot of the event now owns it, in the place where that slot stood, or at
/// the end if the event had none.
pub open spec fn after_registration(slots: Seq<Slot>, event: Event, context: Context) -> Seq<Slot> {
    match position(slots, event) {
        Some(i) => slots.update(i, Slot { event, context }),
        None => slots.push(Slot { event, context }),
    }
}

/// The slots after the removal of the callback of `event` succeeded.
pub open spec fn after_removal(slots: Seq<Slot>, event: Event) -> Seq<Slot> {
    match position(slots, event) {
        Some(i) => slots.remove(i),
        None => slots,
    }
}

/// The releases that free every slot once, in the order of the slots.
pub open spec fn releases(slots: Seq<Slot>) -> Seq<Action> {
    Seq::new(
        slots.len(),
        |i: int| Action::ReleaseCallback { event: slots[i].event, context: slots[i].context },
    )
}

/// How often `context` is released in `plan`, for whatever event.
pub open spec fn released(plan: Seq<Action>, context: Context) -> nat
    decreases plan.len(),
{
    if plan.len() == 0 {
        0
    } else {
        released(plan.drop_last(), context) + (match plan.last() {
            Action::ReleaseCallback { event, context: c } => if c == context {
                1nat
            } else {
                0nat
            },
            _ => 0nat,
        })
    }
}

/// The callback slots of one owner.
pub struct Slots {
    entries: Vec<Slot>,
}

impl View for Slots {
    type V = Seq<Slot>;

    closed spec fn view(&self) -> Seq<Slot> {
        self.entries@
    }
}

impl Slots {
    /// The slots are well formed when they keep the rule of exclusive
    /// ownership.
    pub open spec fn wf(&self) -> bool {
        exclusive(self@)
    }

    /// No slot is set.
    pub fn new() -> (slots: Slots)
        ensures
            slots@ == Seq::<Slot>::empty(),
            slots.wf(),
    {
        Slots { entries: Vec::new() }
    }

    /// The number of slots that are set.
    pub fn len(&self) -> (n: usize)
        ensures
            n == self@.len(),
    {
        self.entries.len()
    }

    /// The slot at a position, in the order in which the events were first
    /// registered.
    pub fn slot(&self, index: usize) -> (r: Option<Slot>)
        ensures
            r == (if index < self@.len() {
                Some(self@[index as int])
            } else {
                None
            }),
    {
        if index < self.entries.len() {
            Some(self.entries[index])
        } else {
            None
        }
    }

    fn find(&self, event: Event) -> (r: Option<usize>)
        requires
            self.wf(),
        ensures
            match r {
                Some(i) => position(self@, event) == Some(i as int) && i < self@.len()
                    && self@[i as int].event == event,
                None => position(self@, event).is_none(),
            },
    {
        let mut i: usize = 0;
        while i < self.entries.len()
            invariant
                self.wf(),
                i <= self.entries.len(),
                forall|k: int| 0 <= k < i ==> self.entries@[k].event != event,
            decreases self.entries.len() - i,
        {
            if self.entries[i].event == event {
                proof {
                    lemma_position(self.entries@, event, i as int);
                }
                return Some(i);
            }
            i += 1;
        }
        None
    }

    /// The context registered for `event`, if there is one.
    pub fn get(&self, event: Event) -> (r: Option<Context>)
        requires
            self.wf(),
        ensures
            r == registered(self@, event),
    {
        match self.find(event) {
            Some(i) => Some(self.entries[i].context),
            None => None,
        }
    }

    /// Whether some slot owns `context`.
    pub fn holds(&self, context: Context) -> (b: bool)
        ensures
            b == owns(self@, context),
    {
        let mut i: usize = 0;
        while i < self.entries.len()
            invariant
                i <= self.entries.len(),
                forall|k: int| 0 <= k < i ==> self.entries@[k].context != context,
            decreases self.entries.len() - i,
        {
            if self.entries[i].context == context {
                return true;
            }
            i += 1;
        }
        false
    }

    /// Whether `context` may be registered: it is not null and no slot owns
    /// it.
    pub fn admits(&self, context: Context) -> (b: bool)
        ensures
            b == fresh(self@, context),
    {
        !context.is_null() && !self.holds(context)
    }

    /// Settles a registration that the native library has answered with
    /// `code`.
    ///
    /// On success the slot of `event` takes `context` over, and the box that
    /// it owned before, if any, is to be released. On failure no slot changes
    /// and the box of `context` itself is to be released: nothing refers to
    /// it.
    pub fn settle_registration(&mut self, event: Event, context: Context, code: u32) -> (s:
        Settlement)
        requires
            old(self).wf(),
            fresh(old(self)@, context),
        ensures
            s.result == ReturnCode::spec_result(code),
            code == 0 ==> final(self)@ == after_registration(old(self)@, event, context)
                && s.release == registered(old(self)@, event),
            code != 0 ==> final(self)@ == old(self)@ && s.release == Some(context),
            final(self).wf(),
    {
        match ReturnCode::result(code) {
            Err(e) => Settlement { result: Err(e), release: Some(context) },
            Ok(_) => {
                let slot = Slot { event, context };
                match self.find(event) {
                    Some(i) => {
                        let before = self.entries[i].context;
                        self.entries.set(i, slot);
                        Settlement { result: Ok(()), release: Some(before) }
                    },
                    None => {
                        self.entries.push(slot);
                        Settlement { result: Ok(()), release: None }
                    },
                }
            },
        }
    }

    /// Settles the removal of the callback of `event` that the native library
    /// has answered with `code`.
    ///
    /// On success the slot is emptied and the box that it owned, if any, is
    /// to be released. On failure no slot changes and nothing is released:
    /// the native library may still deliver events to the box.
    pub fn settle_removal(&mut self, event: Event, code: u32) -> (s: Settlement)
        requires
            old(self).wf(),
        ensures
            s.result == ReturnCode::spec_result(code),
            code == 0 ==> final(self)@ == after_removal(old(self)@, event) && s.release
                == registered(old(self)@, event),
            code != 0 ==> final(self)@ == old(self)@ && s.release.is_none(),
            final(self).wf(),
    {
        match ReturnCode::result(code) {
            Err(e) => Settlement { result: Err(e), release: None },
            Ok(_) => match self.find(event) {
                Some(i) => {
                    let slot = self.entries.remove(i);
                    Settlement { result: Ok(()), release: Some(slot.context) }
                },
                None => Settlement { result: Ok(()), release: None },
            },
        }
    }

    /// Gives up every slot: the plan that frees each box once, in the order
    /// of the slots.
    pub fn release_all(self) -> (plan: Vec<Action>)
        ensures
            plan@ == releases(self@),
    {
        let mut plan: Vec<Action> = Vec::new();
        let mut i: usize = 0;
        while i < self.entries.len()
            invariant
                i <= self.entries.len(),
                plan@ == releases(self.entries@.take(i as int)),
            decreases self.entries.len() - i,
        {
            let slot = self.entries[i];
            plan.push(Action::ReleaseCallback { event: slot.event, context: slot.context });
            proof {
                assert(plan@ =~= releases(self.entries@.take(i + 1)));
            }
            i += 1;
        }
        proof {
            assert(self.entries@.take(i as int) =~= self.entries@);
        }
        plan
    }
}

/// Where no event has two slots, the slot of an event stands where the event
/// is found.
pub proof fn lemma_position(slots: Seq<Slot>, event: Event, i: int)
    requires
        exclusive(slots),
        0 <= i < slots.len(),
        slots[i].event == event,
    ensures
        position(slots, event) == Some(i),
        registered(slots, event) == Some(slots[i].context),
{
    let j = choose|j: int| 0 <= j < slots.len() && slots[j].event == event;
    if j < i {
        assert(slots[j].event != slots[i].event);
    } else if i < j {
        assert(slots[i].event != slots[j].event);
    }
}

/// The slot of an event that has none is nowhere.
pub proof fn lemma_no_position(slots: Seq<Slot>, event: Event)
    requires
        forall|i: int| 0 <= i < slots.len() ==> slots[i].event != event,
    ensures
        position(slots, event).is_none(),
        registered(slots, event).is_none(),
{
}

/// A successful registration keeps the rule of exclusive ownership, makes the
/// slot of the event own the new context, takes ownership away from the
/// context that the slot owned before, and leaves every other event as it
/// was.
pub proof fn lemma_registration(slots: Seq<Slot>, event: Event, context: Context)
    requires
        exclusive(slots),
        fresh(slots, context),
    ensures
        exclusive(after_registration(slots, event, context)),
        registered(after_registration(slots, event, context), event) == Some(context),
        owns(after_registration(slots, event, context), context),
        forall|other: Event|
            other != event ==> registered(after_registration(slots, event, context), other)
                == registered(slots, other),
        forall|c: Context|
            c != context ==> (owns(after_registration(slots, event, context), c) <==> owns(
                slots,
                c,
            ) && registered(slots, event) != Some(c)),
{
    let after = after_registration(slots, event, context);
    let slot = Slot { event, context };
    match position(slots, event) {
        Some(i) => {
            assert(0 <= i < slots.len() && slots[i].event == event);
            assert(after =~= slots.update(i, slot));
            assert forall|a: int, b: int| 0 <= a < b < after.len() implies after[a].context
                != after[b].context by {
                if a == i {
                    assert(slots[b].context != context);
                } else if b == i {
                    assert(slots[a].context != context);
                }
            }
            assert(exclusive(after));
            lemma_position(after, event, i);
            assert(after[i].context == context);
            assert forall|other: Event| other != event implies registered(after, other)
                == registered(slots, other) by {
                if exists|k: int| 0 <= k < slots.len() && slots[k].event == other {
                    let k = choose|k: int| 0 <= k < slots.len() && slots[k].event == other;
                    assert(k != i);
                    assert(after[k] == slots[k]);
                    lemma_position(slots, other, k);
                    lemma_position(after, other, k);
                } else {
                    assert forall|k: int| 0 <= k < after.len() implies after[k].event
                        != other by {
                        if k != i {
                            assert(after[k] == slots[k]);
                        }
                    }
                    lemma_no_position(after, other);
                    lemma_no_position(slots, other);
                }
            }
            lemma_position(slots, event, i);
            assert forall|c: Context| c != context implies (owns(after, c) <==> owns(slots, c)
                && registered(slots, event) != Some(c)) by {
                if owns(after, c) {
                    let k = choose|k: int| 0 <= k < after.len() && after[k].context == c;
                    assert(k != i);
                    assert(slots[k].context == c);
                    if i < k {
                        assert(slots[i].context != slots[k].context);
                    } else {
                        assert(slots[k].context != slots[i].context);
                    }
                }
                if owns(slots, c) && registered(slots, event) != Some(c) {
                    let k = choose|k: int| 0 <= k < slots.len() && slots[k].context == c;
                    assert(k != i);
                    assert(after[k].context == c);
                }
            }
        },
        None => {
            assert(after =~= slots.push(slot));
            assert forall|k: int| 0 <= k < slots.len() implies slots[k].event != event by {
                if slots[k].event == event {
                    assert(position(slots, event).is_some());
                }
            }
            assert forall|a: int, b: int| 0 <= a < b < after.len() implies after[a].context
                != after[b].context by {
                if b == slots.len() {
                    assert(slots[a].context != context);
                }
            }
            assert(exclusive(after));
            lemma_position(after, event, slots.len() as int);
            assert(after[slots.len() as int].context == context);
            assert forall|other: Event| other != event implies registered(after, other)
                == registered(slots, other) by {
                if exists|k: int| 0 <= k < slots.len() && slots[k].event == other {
                    let k = choose|k: int| 0 <= k < slots.len() && slots[k].event == other;
                    assert(after[k] == slots[k]);
                    lemma_position(slots, other, k);
                    lemma_position(after, other, k);
                } else {
                    assert forall|k: int| 0 <= k < after.len() implies after[k].event
                        != other by {
                        if k < slots.len() {
                            assert(after[k] == slots[k]);
                        }
                    }
                    lemma_no_position(after, other);
                    lemma_no_position(slots, other);
                }
            }
            assert forall|c: Context| c != context implies (owns(after, c) <==> owns(slots, c)
                && registered(slots, event) != Some(c)) by {
                if owns(after, c) {
                    let k = choose|k: int| 0 <= k < after.len() && after[k].context == c;
                    assert(k < slots.len());
                    assert(slots[k].context == c);
                }
                if owns(slots, c) {
                    let k = choose|k: int| 0 <= k < slots.len() && slots[k].context == c;
                    assert(after[k].context == c);
                }
            }
        },
    }
}

/// A successful removal keeps the rule of exclusive ownership, leaves the
/// event without a slot, takes ownership away from the context that the slot
/// owned, and leaves every other event as it was.
pub proof fn lemma_removal(slots: Seq<Slot>, event: Event)
    requires
        exclusive(slots),
    ensures
        exclusive(after_removal(slots, event)),
        registered(after_removal(slots, event), event).is_none(),
        forall|other: Event|
            other != event ==> registered(after_removal(slots, event), other) == registered(
                slots,
                other,
            ),
        forall|c: Context|
            owns(after_removal(slots, event), c) <==> owns(slots, c) && registered(slots, event)
                != Some(c),
{
    let after = after_removal(slots, event);
    match position(slots, event) {
        Some(i) => {
            assert(0 <= i < slots.len() && slots[i].event == event);
            assert(after =~= slots.remove(i));
            assert forall|k: int| 0 <= k < after.len() implies after[k] == slots[if k < i {
                k
            } else {
                k + 1
            }] by {}
            assert(exclusive(after)) by {
                assert forall|a: int, b: int| 0 <= a < b < after.len() implies after[a].event
                    != after[b].event && after[a].context != after[b].context by {
                    let a2 = if a < i { a } else { a + 1 };
                    let b2 = if b < i { b } else { b + 1 };
                    assert(after[a] == slots[a2] && after[b] == slots[b2]);
                    assert(slots[a2].event != slots[b2].event);
                    assert(slots[a2].context != slots[b2].context);
                }
                assert forall|k: int| 0 <= k < after.len() implies !after[k].context.is_null() by {
                    let k2 = if k < i { k } else { k + 1 };
                    assert(after[k] == slots[k2]);
                }
            }
            assert forall|k: int| 0 <= k < after.len() implies after[k].event != event by {
                let k2 = if k < i { k } else { k + 1 };
                assert(after[k] == slots[k2]);
                if k2 < i {
                    assert(slots[k2].event != slots[i].event);
                } else {
                    assert(slots[i].event != slots[k2].event);
                }
            }
            lemma_no_position(after, event);
            lemma_position(slots, event, i);
            assert forall|other: Event| other != event implies registered(after, other)
                == registered(slots, other) by {
                if exists|k: int| 0 <= k < slots.len() && slots[k].event == other {
                    let k = choose|k: int| 0 <= k < slots.len() && slots[k].event == other;
                    assert(k != i);
                    let k1 = if k < i { k } else { k - 1 };
                    assert(after[k1] == slots[k]);
                    lemma_position(slots, other, k);
                    lemma_position(after, other, k1);
                } else {
                    assert forall|k: int| 0 <= k < after.len() implies after[k].event
                        != other by {
                        let k2 = if k < i { k } else { k + 1 };
                        assert(after[k] == slots[k2]);
                    }
                    lemma_no_position(after, other);
                    lemma_no_position(slots, other);
                }
            }
            assert forall|c: Context| owns(after, c) <==> owns(slots, c) && registered(
                slots,
                event,
            ) != Some(c) by {
                if owns(after, c) {
                    let k = choose|k: int| 0 <= k < after.len() && after[k].context == c;
                    let k2 = if k < i { k } else { k + 1 };
                    assert(after[k] == slots[k2]);
                    assert(slots[k2].context == c);
                    if k2 < i {
                        assert(slots[k2].context != slots[i].context);
                    } else {
                        assert(slots[i].context != slots[k2].context);
                    }
                }
                if owns(slots, c) && registered(slots, event) != Some(c) {
                    let k = choose|k: int| 0 <= k < slots.len() && slots[k].context == c;
                    assert(k != i);
                    let k1 = if k < i { k } else { k - 1 };
                    assert(after[k1] == slots[k]);
                    assert(after[k1].context == c);
                }
            }
        },
        None => {
            assert(after == slots);
            assert forall|k: int| 0 <= k < slots.len() implies slots[k].event != event by {
                if slots[k].event == event {
                    assert(position(slots, event).is_some());
                }
            }
            lemma_no_position(slots, event);
        },
    }
}

/// Releases are counted part by part.
pub proof fn lemma_released_concat(a: Seq<Action>, b: Seq<Action>, context: Context)
    ensures
        released(a + b, context) == released(a, context) + released(b, context),
    decreases b.len(),
{
    if b.len() == 0 {
        assert(a + b =~= a);
    } else {
        assert((a + b).drop_last() =~= a + b.drop_last());
        assert((a + b).last() == b.last());
        lemma_released_concat(a, b.drop_last(), context);
    }
}

/// The releases of the slots free each context that a slot owns exactly once,
/// and no other context at all.
pub proof fn lemma_releases_once(slots: Seq<Slot>, context: Context)
    requires
        exclusive(slots),
    ensures
        released(releases(slots), context) == (if owns(slots, context) {
            1nat
        } else {
            0nat
        }),
    decreases slots.len(),
{
    let plan = releases(slots);
    if slots.len() == 0 {
    } else {
        let init = slots.drop_last();
        let n = slots.len() - 1;
        assert(plan.drop_last() =~= releases(init));
        assert(plan.last() == Action::ReleaseCallback {
            event: slots[n].event,
            context: slots[n].context,
        });
        assert(exclusive(init)) by {
            assert forall|a: int, b: int| 0 <= a < b < init.len() implies init[a].event
                != init[b].event && init[a].context != init[b].context by {
                assert(init[a] == slots[a] && init[b] == slots[b]);
            }
            assert forall|k: int| 0 <= k < init.len() implies !init[k].context.is_null() by {
                assert(init[k] == slots[k]);
            }
        }
        lemma_releases_once(init, context);
        if slots[n].context == context {
            assert(owns(slots, context));
            if owns(init, context) {
                let k = choose|k: int| 0 <= k < init.len() && init[k].context == context;
                assert(slots[k].context == context);
                assert(slots[k].context != slots[n].context);
            }
        } else {
            if owns(init, context) {
                let k = choose|k: int| 0 <= k < init.len() && init[k].context == context;
                assert(slots[k].context == context);
            }
            if owns(slots, context) {
                let k = choose|k: int| 0 <= k < slots.len() && slots[k].context == context;
                assert(k < n);
                assert(init[k].context == context);
            }
        }
    }
}

/// What a trampoline does with an event that the native library delivers for
/// `phid` with the context `ctx`.
///
/// With the null context nothing is to be done. Otherwise the callback behind
/// the context is to be invoked with a view of the device. The view owns
/// nothing, so the event has no effect on the lifetime of the native object.
pub fn trampoline(phid: Handle, ctx: Context) -> (r: Option<PhidgetRef>)
    ensures
        r is None <==> ctx.is_null(),
        r matches Some(view) ==> view.handle() == phid,
{
    if ctx.is_null() {
        None
    } else {
        Some(PhidgetRef::new(phid))
    }
}

/// Settles a registration that no slot keeps, once the native library has
/// answered it with `code`: on failure the box of `context` is to be
/// released, since nothing refers to it; on success the caller keeps the
/// context, and nothing is released.
pub fn settle_unowned(context: Context, code: u32) -> (s: Settlement)
    ensures
        s.result == ReturnCode::spec_result(code),
        s.release == (if code == 0 {
            None
        } else {
            Some(context)
        }),
{
    match ReturnCode::result(code) {
        Ok(_) => Settlement { result: Ok(()), release: None },
        Err(e) => Settlement { result: Err(e), release: Some(context) },
    }
}

} // verus!
