//! The device manager: it discovers the phidgets that come and go, and tells
//! of each through a callback that gets a non-owning view of the device.

use crate::callback::{
    after_registration, after_removal, exclusive, fresh, registered, releases, Settlement, Slot,
    Slots,
};
use crate::errors::ReturnCode;
use crate::handle::{Context, Handle};
use crate::native::{Action, Event, NativeCall};
use vstd::prelude::*;

verus! {

/// The plan of a manager's teardown: the close, then the delete of the native
/// manager, then the release of every callback box, in the order of the slots.
pub open spec fn manager_teardown_plan(handle: Handle, slots: Seq<Slot>) -> Seq<Action> {
    seq![
        Action::Call(NativeCall::ManagerClose { handle }),
        Action::Call(NativeCall::ManagerDelete { handle }),
    ] + releases(slots)
}

/// Phidget device manager: the owner of one native manager, whose handle is
/// never null while the manager lives, and of the callbacks registered on it.
pub struct PhidgetManager {
    mgr: Handle,
    slots: Slots,
}

impl PhidgetManager {
    /// The handle of the native manager.
    pub closed spec fn handle(&self) -> Handle {
        self.mgr
    }

    /// The callback slots that are set.
    pub closed spec fn slots(&self) -> Seq<Slot> {
        self.slots@
    }

    /// The manager is well formed when its handle is not null and its slots
    /// keep the rule of exclusive ownership.
    pub closed spec fn wf(&self) -> bool {
        !self.mgr.is_null() && self.slots.wf()
    }

    /// A well-formed manager has a handle that is not null, and its slots
    /// keep the rule of exclusive ownership.
    pub proof fn lemma_wf(&self)
        requires
            self.wf(),
        ensures
            !self.handle().is_null(),
            exclusive(self.slots()),
    {
    }

    /// The call that creates the native manager.
    pub fn create() -> (call: NativeCall)
        ensures
            call == NativeCall::ManagerCreate,
    {
        NativeCall::ManagerCreate
    }

    /// Completes the creation of a manager, given the code with which the
    /// native library answered the create call and the handle that it gave.
    ///
    /// A failed call gives its failure, and a call that succeeded but gave the
    /// null handle gives `NoMemory`. Otherwise the manager owns the new native
    /// object, and no callback is registered yet.
    pub fn new(code: u32, mgr: Handle) -> (r: Result<PhidgetManager, ReturnCode>)
        ensures
            code != 0 ==> r is Err && r->Err_0 == ReturnCode::of_code(code),
            code == 0 && mgr.is_null() ==> r is Err && r->Err_0 == ReturnCode::NoMemory,
            code == 0 && !mgr.is_null() ==> r is Ok && r->Ok_0.wf() && r->Ok_0.handle() == mgr
                && r->Ok_0.slots() == Seq::<Slot>::empty(),
    {
        match ReturnCode::result(code) {
            Err(e) => Err(e),
            Ok(_) => if mgr.is_null() {
                Err(ReturnCode::NoMemory)
            } else {
                Ok(PhidgetManager { mgr, slots: Slots::new() })
            },
        }
    }

    /// Takes ownership of a native manager that exists. No callback is
    /// registered yet.
    pub fn from(mgr: Handle) -> (manager: PhidgetManager)
        requires
            !mgr.is_null(),
        ensures
            manager.wf(),
            manager.handle() == mgr,
            manager.slots() == Seq::<Slot>::empty(),
    {
        PhidgetManager { mgr, slots: Slots::new() }
    }

    /// Get the handle of the native manager.
    pub fn as_handle(&self) -> (h: Handle)
        ensures
            h == self.handle(),
    {
        self.mgr
    }

    /// Open the phidget manager.
    pub fn open(&self) -> (call: NativeCall)
        ensures
            call == (NativeCall::ManagerOpen { handle: self.handle() }),
    {
        NativeCall::ManagerOpen { handle: self.mgr }
    }

    /// Close the phidget manager.
    pub fn close(&self) -> (call: NativeCall)
        ensures
            call == (NativeCall::ManagerClose { handle: self.handle() }),
    {
        NativeCall::ManagerClose { handle: self.mgr }
    }

    /// Whether `context` may be registered: it is not null and no slot owns
    /// it.
    pub fn admits(&self, context: Context) -> (b: bool)
        requires
            self.wf(),
        ensures
            b == fresh(self.slots(), context),
    {
        self.slots.admits(context)
    }

    /// The context registered for `event`, if there is one.
    pub fn handler(&self, event: Event) -> (r: Option<Context>)
        requires
            self.wf(),
        ensures
            r == registered(self.slots(), event),
    {
        self.slots.get(event)
    }

    /// The call that sets the handler to receive the arrival of devices.
    pub fn set_on_attach_handler(&self, context: Context) -> (call: NativeCall)
        ensures
            call == (NativeCall::SetHandler {
                handle: self.handle(),
                event: Event::DeviceAttach,
                context,
            }),
    {
        NativeCall::SetHandler { handle: self.mgr, event: Event::DeviceAttach, context }
    }

    /// The call that sets the handler to receive the departure of devices.
    pub fn set_on_detach_handler(&self, context: Context) -> (call: NativeCall)
        ensures
            call == (NativeCall::SetHandler {
                handle: self.handle(),
                event: Event::DeviceDetach,
                context,
            }),
    {
        NativeCall::SetHandler { handle: self.mgr, event: Event::DeviceDetach, context }
    }

    /// The call that removes the callback of `event`.
    pub fn remove_handler(&self, event: Event) -> (call: NativeCall)
        ensures
            call == (NativeCall::SetHandler {
                handle: self.handle(),
                event,
                context: Context { addr: 0 },
            }),
    {
        NativeCall::SetHandler { handle: self.mgr, event, context: Context::from_addr(0) }
    }

    /// Settles a registration that the native library has answered with
    /// `code`: on success the slot of `event` takes `context` over and the box
    /// that it owned before is to be released; on failure the box of `context`
    /// itself is.
    pub fn handler_set(&mut self, event: Event, context: Context, code: u32) -> (s: Settlement)
        requires
            old(self).wf(),
            fresh(old(self).slots(), context),
        ensures
            final(self).wf(),
            final(self).handle() == old(self).handle(),
            s.result == ReturnCode::spec_result(code),
            code == 0 ==> final(self).slots() == after_registration(
                old(self).slots(),
                event,
                context,
            ) && s.release == registered(old(self).slots(), event),
            code != 0 ==> final(self).slots() == old(self).slots() && s.release == Some(context),
    {
        self.slots.settle_registration(event, context, code)
    }

    /// Settles a removal that the native library has answered with `code`: on
    /// success the slot of `event` is emptied and the box that it owned is to
    /// be released; on failure nothing changes.
    pub fn handler_removed(&mut self, event: Event, code: u32) -> (s: Settlement)
        requires
            old(self).wf(),
        ensures
            final(self).wf(),
            final(self).handle() == old(self).handle(),
            s.result == ReturnCode::spec_result(code),
            code == 0 ==> final(self).slots() == after_removal(old(self).slots(), event)
                && s.release == registered(old(self).slots(), event),
            code != 0 ==> final(self).slots() == old(self).slots() && s.release.is_none(),
    {
        self.slots.settle_removal(event, code)
    }

    /// Tears the manager down: the close, then the delete of the native
    /// manager, then the release of every callback box.
    pub fn teardown(self) -> (plan: Vec<Action>)
        requires
            self.wf(),
        ensures
            plan@ == manager_teardown_plan(self.handle(), self.slots()),
    {
        let mut plan: Vec<Action> = Vec::new();
        plan.push(Action::Call(NativeCall::ManagerClose { handle: self.mgr }));
        plan.push(Action::Call(NativeCall::ManagerDelete { handle: self.mgr }));
        let ghost head = plan@;
        let ghost slots = self.slots@;
        let mut rest = self.slots.release_all();
        plan.append(&mut rest);
        proof {
            assert(plan@ =~= head + releases(slots));
        }
        plan
    }
}

} // verus!
