use phidget::callback::{settle_unowned, trampoline, Settlement};
use phidget::errors::ReturnCode;
use phidget::handle::{Context, Handle};
use phidget::manager::PhidgetManager;
use phidget::native::{flag_reply, value_reply, Action, Address, Event, Flag, NativeCall};
use phidget::types::ChannelClass;
use phidget::{
    DigitalInput, GenericPhidget, Hub, Phidget, PhidgetRef, Stepper, TemperatureSensor,
};
use std::cell::{Cell, RefCell};
use std::collections::HashMap;
use std::rc::Rc;
use std::time::Duration;

/// Counts how often the closure that captured it was dropped.
struct Counted(Rc<Cell<u32>>);

impl Drop for Counted {
    fn drop(&mut self) {
        self.0.set(self.0.get() + 1);
    }
}

type Callback = Box<dyn Fn(&PhidgetRef, i32)>;

#[derive(Default)]
struct ChannelState {
    open: bool,
    hub_port: i32,
    is_hub_port_device: bool,
    channel: i32,
    serial_number: i32,
}

/// A native layer that answers at once and keeps a record of what it was
/// asked.
struct Mock {
    clock: u64,
    next_handle: usize,
    next_context: usize,
    calls: Vec<NativeCall>,
    live: HashMap<usize, ChannelState>,
    counted: HashMap<usize, u32>,
    handlers: HashMap<(usize, Event), Context>,
    boxes: HashMap<usize, Callback>,
    released: Vec<Context>,
    deleted_at: HashMap<usize, u64>,
    invoked_at: Vec<(usize, u64)>,
    register_code: u32,
    open_code: u32,
    closed_close_code: u32,
}

impl Mock {
    fn new() -> Mock {
        Mock {
            clock: 0,
            next_handle: 0x1000,
            next_context: 0x9000,
            calls: Vec::new(),
            live: HashMap::new(),
            counted: HashMap::new(),
            handlers: HashMap::new(),
            boxes: HashMap::new(),
            released: Vec::new(),
            deleted_at: HashMap::new(),
            invoked_at: Vec::new(),
            register_code: 0,
            open_code: 0,
            closed_close_code: 0,
        }
    }

    fn tick(&mut self) -> u64 {
        self.clock += 1;
        self.clock
    }

    /// Boxes a callback: the context is the address of the box.
    fn box_callback(&mut self, cb: Callback) -> Context {
        self.next_context += 8;
        self.boxes.insert(self.next_context, cb);
        Context::from_addr(self.next_context)
    }

    /// Frees a box. Freeing a box twice is the fault that the protocol is
    /// there to prevent.
    fn free(&mut self, context: Context) {
        let cb = self.boxes.remove(&context.addr);
        assert!(cb.is_some(), "box {:#x} freed twice or never made", context.addr);
        self.released.push(context);
    }

    fn perform(&mut self, call: NativeCall) -> (u32, i64) {
        self.tick();
        self.calls.push(call);
        match call {
            NativeCall::Create { .. } | NativeCall::ManagerCreate => {
                self.next_handle += 0x10;
                self.live.insert(self.next_handle, ChannelState::default());
                (0, self.next_handle as i64)
            }
            NativeCall::Delete { handle, .. } | NativeCall::ManagerDelete { handle } => {
                if self.live.remove(&handle.addr).is_none() {
                    return (21, 0);
                }
                self.handlers.retain(|(h, _), _| *h != handle.addr);
                let now = self.clock;
                self.deleted_at.insert(handle.addr, now);
                (0, 0)
            }
            NativeCall::Open { handle }
            | NativeCall::OpenWaitForAttachment { handle, .. }
            | NativeCall::ManagerOpen { handle } => match self.live.get_mut(&handle.addr) {
                None => (21, 0),
                Some(state) => {
                    if self.open_code == 0 {
                        state.open = true;
                    }
                    (self.open_code, 0)
                }
            },
            NativeCall::Close { handle } | NativeCall::ManagerClose { handle } => {
                match self.live.get_mut(&handle.addr) {
                    None => (21, 0),
                    Some(state) => {
                        if state.open {
                            state.open = false;
                            (0, 0)
                        } else {
                            (self.closed_close_code, 0)
                        }
                    }
                }
            }
            NativeCall::GetFlag { handle, flag } => match self.live.get(&handle.addr) {
                None => (21, 0),
                Some(state) => match flag {
                    Flag::IsOpen | Flag::Attached => (0, state.open as i64),
                    Flag::IsHubPortDevice => (0, state.is_hub_port_device as i64),
                    Flag::IsLocal => (0, 1),
                    Flag::IsRemote => (0, 0),
                },
            },
            NativeCall::SetFlag { handle, flag, on } => match self.live.get_mut(&handle.addr) {
                None => (21, 0),
                Some(state) => match flag {
                    Flag::IsHubPortDevice => {
                        state.is_hub_port_device = on;
                        (0, 0)
                    }
                    _ => (20, 0),
                },
            },
            NativeCall::GetAddress { handle, address } => match self.live.get(&handle.addr) {
                None => (21, 0),
                Some(state) => match address {
                    Address::HubPort => (0, state.hub_port as i64),
                    Address::Channel => (0, state.channel as i64),
                    Address::SerialNumber => (0, state.serial_number as i64),
                },
            },
            NativeCall::SetAddress { handle, address, value } => {
                match self.live.get_mut(&handle.addr) {
                    None => (21, 0),
                    Some(state) => {
                        match address {
                            Address::HubPort => state.hub_port = value,
                            Address::Channel => state.channel = value,
                            Address::SerialNumber => state.serial_number = value,
                        }
                        (0, 0)
                    }
                }
            }
            NativeCall::SetHandler { handle, event, context } => {
                if !self.live.contains_key(&handle.addr) {
                    return (21, 0);
                }
                if self.register_code != 0 {
                    return (self.register_code, 0);
                }
                if context.is_null() {
                    self.handlers.remove(&(handle.addr, event));
                } else {
                    self.handlers.insert((handle.addr, event), context);
                }
                (0, 0)
            }
            NativeCall::Retain { handle } => {
                if !self.live.contains_key(&handle.addr) {
                    return (21, 0);
                }
                *self.counted.entry(handle.addr).or_insert(0) += 1;
                (0, 0)
            }
            NativeCall::Release { handle } => match self.counted.get_mut(&handle.addr) {
                Some(n) if *n > 0 => {
                    *n -= 1;
                    (0, 0)
                }
                _ => (21, 0),
            },
            _ => (20, 0),
        }
    }

    /// Carries a plan out, step by step.
    fn run(&mut self, plan: Vec<Action>) {
        for action in plan {
            match action {
                Action::Call(call) => {
                    self.perform(call);
                }
                Action::ReleaseCallback { context, .. } => self.free(context),
            }
        }
    }

    /// The native side of an event: if a handler is registered for it, the
    /// trampoline is entered with the registered context. Says whether a
    /// callback ran.
    fn fire(&mut self, handle: Handle, event: Event, payload: i32) -> bool {
        let now = self.tick();
        let context = match self.handlers.get(&(handle.addr, event)) {
            Some(context) => *context,
            None => return false,
        };
        match trampoline(handle, context) {
            None => false,
            Some(view) => {
                let cb = self.boxes.get(&context.addr).expect("event for a freed box");
                cb(&view, payload);
                self.invoked_at.push((handle.addr, now));
                true
            }
        }
    }

    fn count(&self, wanted: fn(&NativeCall) -> bool) -> usize {
        self.calls.iter().filter(|c| wanted(c)).count()
    }
}

fn is_delete(call: &NativeCall) -> bool {
    matches!(call, NativeCall::Delete { .. })
}

fn is_release(call: &NativeCall) -> bool {
    matches!(call, NativeCall::Release { .. })
}

fn is_close(call: &NativeCall) -> bool {
    matches!(call, NativeCall::Close { .. })
}

fn new_digital_input(mock: &mut Mock) -> DigitalInput {
    let (code, value) = mock.perform(DigitalInput::create());
    DigitalInput::new(code, Handle::from_addr(value as usize)).unwrap()
}

fn open_wait(mock: &mut Mock, device: &impl Phidget, to: Duration) -> Result<(), ReturnCode> {
    let call = device.open_wait(to)?;
    ReturnCode::result(mock.perform(call).0)
}

fn close(mock: &mut Mock, device: &impl Phidget) -> Result<(), ReturnCode> {
    ReturnCode::result(mock.perform(device.close()).0)
}

fn is_open(mock: &mut Mock, device: &impl Phidget) -> Result<bool, ReturnCode> {
    let (code, raw) = mock.perform(device.is_open());
    flag_reply(code, raw as i32)
}

fn settle(mock: &mut Mock, settlement: Settlement) -> Result<(), ReturnCode> {
    if let Some(context) = settlement.release {
        mock.free(context);
    }
    settlement.result
}

fn set_on_state_change(
    mock: &mut Mock,
    device: &mut DigitalInput,
    cb: Callback,
) -> Result<(), ReturnCode> {
    let context = mock.box_callback(cb);
    assert!(device.admits(context));
    let (code, _) = mock.perform(device.set_on_state_change_handler(context));
    let settlement = device.handler_set(Event::StateChange, context, code);
    settle(mock, settlement)
}

fn drop_digital_input(mock: &mut Mock, device: DigitalInput) {
    let probe = is_open(mock, &device);
    let plan = device.teardown(probe);
    mock.run(plan);
}

fn recorder(
    seen: &Rc<RefCell<Vec<(usize, i32)>>>,
    drops: &Rc<Cell<u32>>,
) -> Callback {
    let seen = Rc::clone(seen);
    let guard = Counted(Rc::clone(drops));
    Box::new(move |device: &PhidgetRef, value: i32| {
        let _ = &guard;
        seen.borrow_mut().push((device.as_handle().addr, value));
    })
}

#[test]
fn open_wait_on_a_hub_port() {
    let mut mock = Mock::new();
    let device = new_digital_input(&mut mock);
    assert_eq!(
        ReturnCode::result(mock.perform(device.set_is_hub_port_device(true)).0),
        Ok(())
    );
    assert_eq!(ReturnCode::result(mock.perform(device.set_hub_port(5)).0), Ok(()));
    assert_eq!(open_wait(&mut mock, &device, Duration::from_secs(5)), Ok(()));
    assert_eq!(
        mock.calls.last(),
        Some(&NativeCall::OpenWaitForAttachment { handle: device.as_handle(), timeout_ms: 5000 })
    );
    let (code, raw) = mock.perform(device.hub_port());
    assert_eq!(value_reply(code, raw as i32), Ok(5));
    let (code, raw) = mock.perform(device.is_hub_port_device());
    assert_eq!(flag_reply(code, raw as i32), Ok(true));
    assert_eq!(is_open(&mut mock, &device), Ok(true));
    drop_digital_input(&mut mock, device);
}

#[test]
fn a_state_change_reaches_the_closure_once() {
    let mut mock = Mock::new();
    let mut device = new_digital_input(&mut mock);
    let handle = device.as_handle();
    let seen = Rc::new(RefCell::new(Vec::new()));
    let drops = Rc::new(Cell::new(0));
    assert_eq!(
        set_on_state_change(&mut mock, &mut device, recorder(&seen, &drops)),
        Ok(())
    );
    assert!(mock.fire(handle, Event::StateChange, 1));
    assert_eq!(*seen.borrow(), vec![(handle.addr, 1)]);
    assert_eq!(drops.get(), 0);

    drop_digital_input(&mut mock, device);
    assert_eq!(drops.get(), 1);
    assert_eq!(mock.released.len(), 1);
    assert!(!mock.fire(handle, Event::StateChange, 0));
    assert_eq!(*seen.borrow(), vec![(handle.addr, 1)]);
    assert!(mock.boxes.is_empty());
}

#[test]
fn a_second_handler_replaces_the_first() {
    let mut mock = Mock::new();
    let mut device = new_digital_input(&mut mock);
    let handle = device.as_handle();
    let first_seen = Rc::new(RefCell::new(Vec::new()));
    let first_drops = Rc::new(Cell::new(0));
    let second_seen = Rc::new(RefCell::new(Vec::new()));
    let second_drops = Rc::new(Cell::new(0));
    assert_eq!(
        set_on_state_change(&mut mock, &mut device, recorder(&first_seen, &first_drops)),
        Ok(())
    );
    let first = device.handler(Event::StateChange).unwrap();
    assert_eq!(
        set_on_state_change(&mut mock, &mut device, recorder(&second_seen, &second_drops)),
        Ok(())
    );
    let second = device.handler(Event::StateChange).unwrap();
    assert_ne!(first, second);
    assert_eq!(first_drops.get(), 1);
    assert_eq!(second_drops.get(), 0);
    assert_eq!(mock.released, vec![first]);

    assert!(mock.fire(handle, Event::StateChange, 1));
    assert!(first_seen.borrow().is_empty());
    assert_eq!(*second_seen.borrow(), vec![(handle.addr, 1)]);

    drop_digital_input(&mut mock, device);
    assert_eq!(first_drops.get(), 1);
    assert_eq!(second_drops.get(), 1);
    assert_eq!(mock.released, vec![first, second]);
}

#[test]
fn close_twice_answers_as_the_native_layer_does() {
    for benign in [0u32, 56] {
        let mut mock = Mock::new();
        mock.closed_close_code = benign;
        let device = new_digital_input(&mut mock);
        assert_eq!(open_wait(&mut mock, &device, Duration::from_millis(10)), Ok(()));
        assert_eq!(close(&mut mock, &device), Ok(()));
        assert_eq!(close(&mut mock, &device), ReturnCode::result(benign));
        assert_eq!(close(&mut mock, &device), ReturnCode::result(benign));
        assert_eq!(mock.count(is_close), 3);
        assert_eq!(is_open(&mut mock, &device), Ok(false));
        assert_eq!(open_wait(&mut mock, &device, Duration::from_millis(10)), Ok(()));
        assert_eq!(is_open(&mut mock, &device), Ok(true));
        drop_digital_input(&mut mock, device);
    }
}

#[test]
fn every_box_is_released_exactly_once_at_teardown() {
    let mut mock = Mock::new();
    let (code, value) = mock.perform(Stepper::create());
    let mut stepper = Stepper::new(code, Handle::from_addr(value as usize)).unwrap();
    let drops: Vec<Rc<Cell<u32>>> = (0..5).map(|_| Rc::new(Cell::new(0))).collect();
    let seen = Rc::new(RefCell::new(Vec::new()));
    let events = [
        Event::PositionChange,
        Event::VelocityChange,
        Event::Stopped,
        Event::Attach,
        Event::Detach,
    ];
    for (event, counter) in events.iter().zip(drops.iter()) {
        let context = mock.box_callback(recorder(&seen, counter));
        assert!(stepper.admits(context));
        let call = match event {
            Event::PositionChange => stepper.set_on_position_change_handler(context),
            Event::VelocityChange => stepper.set_on_velocity_change_handler(context),
            Event::Stopped => stepper.set_on_stopped_handler(context),
            Event::Attach => stepper.set_on_attach_handler(context),
            _ => stepper.set_on_detach_handler(context),
        };
        assert_eq!(
            call,
            NativeCall::SetHandler { handle: stepper.as_handle(), event: *event, context }
        );
        let (code, _) = mock.perform(call);
        let settlement = stepper.handler_set(*event, context, code);
        assert_eq!(settle(&mut mock, settlement), Ok(()));
        assert!(!stepper.admits(context));
    }
    for event in events {
        assert!(stepper.handler(event).is_some());
    }
    for counter in &drops {
        assert_eq!(counter.get(), 0);
    }
    let probe = is_open(&mut mock, &stepper);
    let plan = stepper.teardown(probe);
    assert_eq!(plan.len(), 6);
    mock.run(plan);
    for counter in &drops {
        assert_eq!(counter.get(), 1);
    }
    assert_eq!(mock.released.len(), 5);
    assert_eq!(mock.count(is_delete), 1);
    assert!(mock.boxes.is_empty());
}

#[test]
fn no_callback_runs_after_the_delete() {
    let mut mock = Mock::new();
    let mut device = new_digital_input(&mut mock);
    let handle = device.as_handle();
    let seen = Rc::new(RefCell::new(Vec::new()));
    let drops = Rc::new(Cell::new(0));
    set_on_state_change(&mut mock, &mut device, recorder(&seen, &drops)).unwrap();
    assert_eq!(open_wait(&mut mock, &device, Duration::from_secs(1)), Ok(()));
    assert!(mock.fire(handle, Event::StateChange, 0));
    assert!(mock.fire(handle, Event::StateChange, 1));

    let probe = is_open(&mut mock, &device);
    let plan = device.teardown(probe);
    let delete = plan
        .iter()
        .position(|a| matches!(a, Action::Call(NativeCall::Delete { .. })))
        .unwrap();
    for (i, action) in plan.iter().enumerate() {
        match action {
            Action::ReleaseCallback { .. } => assert!(i > delete),
            Action::Call(NativeCall::Close { .. }) => assert!(i < delete),
            Action::Call(NativeCall::Delete { class, handle: h }) => {
                assert_eq!(i, delete);
                assert_eq!(*class, ChannelClass::DigitalInput);
                assert_eq!(*h, handle);
            }
            other => panic!("unexpected step {:?}", other),
        }
    }
    mock.run(plan);

    for _ in 0..3 {
        assert!(!mock.fire(handle, Event::StateChange, 1));
    }
    let deleted = mock.deleted_at[&handle.addr];
    assert_eq!(mock.invoked_at.len(), 2);
    for (h, at) in &mock.invoked_at {
        assert_eq!(*h, handle.addr);
        assert!(*at < deleted);
    }
    assert_eq!(seen.borrow().len(), 2);
    assert_eq!(drops.get(), 1);
}

#[test]
fn views_neither_delete_nor_release() {
    let mut mock = Mock::new();
    let device = new_digital_input(&mut mock);
    let handle = device.as_handle();
    let before = mock.calls.len();
    for _ in 0..100 {
        let view = PhidgetRef::new(handle);
        assert_eq!(view.as_handle(), handle);
        let plan = view.teardown();
        assert!(plan.is_empty());
        mock.run(plan);
        let view = PhidgetRef::from(handle);
        mock.run(view.teardown());
    }
    assert_eq!(mock.calls.len(), before);
    assert_eq!(mock.count(is_delete), 0);
    assert_eq!(mock.count(is_release), 0);
    assert_eq!(is_open(&mut mock, &PhidgetRef::new(handle)), Ok(false));
    drop_digital_input(&mut mock, device);
    assert_eq!(mock.count(is_delete), 1);
}

#[test]
fn only_a_promotion_takes_a_counted_reference() {
    let mut mock = Mock::new();
    let device = new_digital_input(&mut mock);
    let handle = device.as_handle();
    let view = PhidgetRef::new(handle);
    let call = view.retain();
    assert_eq!(call, NativeCall::Retain { handle });
    let (code, _) = mock.perform(call);
    let generic = GenericPhidget::try_from(&view, code).unwrap();
    assert_eq!(generic.as_handle(), handle);
    assert_eq!(view.as_handle(), handle);
    assert_eq!(mock.counted[&handle.addr], 1);

    let probe = is_open(&mut mock, &generic);
    assert_eq!(probe, Ok(false));
    let plan = generic.teardown(probe);
    assert_eq!(plan, vec![Action::Call(NativeCall::Release { handle })]);
    mock.run(plan);
    assert_eq!(mock.counted[&handle.addr], 0);
    assert_eq!(mock.count(is_delete), 0);
    assert_eq!(mock.count(is_release), 1);
    mock.run(view.teardown());
    drop_digital_input(&mut mock, device);
}

#[test]
fn a_failed_promotion_gives_the_failure_and_leaves_the_view() {
    let mut mock = Mock::new();
    let view = PhidgetRef::new(Handle::from_addr(0x77));
    let (code, _) = mock.perform(view.retain());
    assert_eq!(code, 21);
    assert!(matches!(
        GenericPhidget::try_from(&view, code),
        Err(ReturnCode::InvalidArg)
    ));
    assert_eq!(view.as_handle().addr, 0x77);
    assert!(matches!(GenericPhidget::try_from(&view, 6), Err(ReturnCode::NoMemory)));
}

#[test]
fn a_counted_handle_is_closed_before_its_release_only_when_known_to_be_open() {
    let handle = Handle::from_addr(0x40);
    let view = PhidgetRef::new(handle);
    let close = Action::Call(NativeCall::Close { handle });
    let release = Action::Call(NativeCall::Release { handle });
    let plan = GenericPhidget::try_from(&view, 0).unwrap().teardown(Ok(true));
    assert_eq!(plan, vec![close, release]);
    let plan = GenericPhidget::try_from(&view, 0).unwrap().teardown(Err(ReturnCode::Timeout));
    assert_eq!(plan, vec![release]);
    let plan = GenericPhidget::try_from(&view, 0).unwrap().teardown(Ok(false));
    assert_eq!(plan, vec![release]);
}

#[test]
fn a_wait_beyond_32_bits_is_rejected_without_a_native_call() {
    let mut mock = Mock::new();
    let device = new_digital_input(&mut mock);
    let before = mock.calls.len();
    assert_eq!(
        open_wait(&mut mock, &device, Duration::from_millis(4_294_967_296)),
        Err(ReturnCode::InvalidArg)
    );
    assert_eq!(
        open_wait(&mut mock, &device, Duration::from_secs(u64::MAX)),
        Err(ReturnCode::InvalidArg)
    );
    assert_eq!(device.open_wait_millis(1 << 32), Err(ReturnCode::InvalidArg));
    assert_eq!(device.open_wait_millis(u128::MAX), Err(ReturnCode::InvalidArg));
    assert_eq!(mock.calls.len(), before);
    assert_eq!(is_open(&mut mock, &device), Ok(false));
    assert_eq!(
        device.open_wait_millis(u32::MAX as u128),
        Ok(NativeCall::OpenWaitForAttachment {
            handle: device.as_handle(),
            timeout_ms: u32::MAX
        })
    );
    assert_eq!(
        device.open_wait_default(),
        NativeCall::OpenWaitForAttachment { handle: device.as_handle(), timeout_ms: 1000 }
    );
    drop_digital_input(&mut mock, device);
}

#[test]
fn a_timed_out_open_is_the_timeout_error() {
    let mut mock = Mock::new();
    mock.open_code = 3;
    let device = new_digital_input(&mut mock);
    assert_eq!(
        open_wait(&mut mock, &device, Duration::from_secs(1)),
        Err(ReturnCode::Timeout)
    );
    assert_eq!(is_open(&mut mock, &device), Ok(false));
    drop_digital_input(&mut mock, device);
}

#[test]
fn a_failed_registration_frees_the_new_box_and_keeps_the_old_one() {
    let mut mock = Mock::new();
    let mut device = new_digital_input(&mut mock);
    let handle = device.as_handle();
    let seen = Rc::new(RefCell::new(Vec::new()));
    let old_drops = Rc::new(Cell::new(0));
    let new_drops = Rc::new(Cell::new(0));
    set_on_state_change(&mut mock, &mut device, recorder(&seen, &old_drops)).unwrap();
    let old = device.handler(Event::StateChange).unwrap();

    mock.register_code = 20;
    assert_eq!(
        set_on_state_change(&mut mock, &mut device, recorder(&seen, &new_drops)),
        Err(ReturnCode::Unsupported)
    );
    assert_eq!(new_drops.get(), 1);
    assert_eq!(old_drops.get(), 0);
    assert_eq!(device.handler(Event::StateChange), Some(old));
    assert!(mock.fire(handle, Event::StateChange, 1));
    assert_eq!(seen.borrow().len(), 1);

    drop_digital_input(&mut mock, device);
    assert_eq!(new_drops.get(), 1);
    assert_eq!(old_drops.get(), 1);
}

#[test]
fn a_removal_frees_the_box_only_when_it_succeeds() {
    let mut mock = Mock::new();
    let mut device = new_digital_input(&mut mock);
    let handle = device.as_handle();
    let seen = Rc::new(RefCell::new(Vec::new()));
    let drops = Rc::new(Cell::new(0));
    set_on_state_change(&mut mock, &mut device, recorder(&seen, &drops)).unwrap();
    let context = device.handler(Event::StateChange).unwrap();

    let call = device.remove_on_state_change_handler();
    assert_eq!(
        call,
        NativeCall::SetHandler {
            handle,
            event: Event::StateChange,
            context: Context::from_addr(0)
        }
    );
    assert_eq!(call, device.remove_handler(Event::StateChange));

    mock.register_code = 9;
    let (code, _) = mock.perform(call);
    let settlement = device.handler_removed(Event::StateChange, code);
    assert!(settlement.release.is_none());
    assert_eq!(settle(&mut mock, settlement), Err(ReturnCode::Busy));
    assert_eq!(device.handler(Event::StateChange), Some(context));
    assert_eq!(drops.get(), 0);
    assert!(mock.fire(handle, Event::StateChange, 1));

    mock.register_code = 0;
    let (code, _) = mock.perform(call);
    let settlement = device.handler_removed(Event::StateChange, code);
    assert_eq!(settlement.release, Some(context));
    assert_eq!(settle(&mut mock, settlement), Ok(()));
    assert_eq!(device.handler(Event::StateChange), None);
    assert_eq!(drops.get(), 1);
    assert!(!mock.fire(handle, Event::StateChange, 1));
    assert!(device.admits(context));

    let (code, _) = mock.perform(call);
    let settlement = device.handler_removed(Event::StateChange, code);
    assert!(settlement.release.is_none());
    assert_eq!(settle(&mut mock, settlement), Ok(()));

    let probe = is_open(&mut mock, &device);
    let plan = device.teardown(probe);
    assert_eq!(plan.len(), 1);
    mock.run(plan);
    assert_eq!(drops.get(), 1);
}

#[test]
fn the_teardown_closes_first_unless_the_channel_is_known_to_be_closed() {
    let handle = Handle::from_addr(0x2000);
    let close = Action::Call(NativeCall::Close { handle });
    let delete = Action::Call(NativeCall::Delete { class: ChannelClass::Hub, handle });
    assert_eq!(Hub::from(handle).teardown(Ok(true)), vec![close, delete]);
    assert_eq!(Hub::from(handle).teardown(Ok(false)), vec![delete]);
    assert_eq!(
        Hub::from(handle).teardown(Err(ReturnCode::NotAttached)),
        vec![close, delete]
    );
    assert_eq!(Hub::create(), NativeCall::Create { class: ChannelClass::Hub });
    assert_eq!(Hub::from(handle).as_channel(), handle);
}

#[test]
fn the_teardown_releases_the_slots_in_their_order() {
    let handle = Handle::from_addr(0x3000);
    let mut sensor = TemperatureSensor::from(handle);
    let detach = Context::from_addr(0x10);
    let change = Context::from_addr(0x20);
    let attach = Context::from_addr(0x30);
    assert!(sensor.handler_set(Event::Detach, detach, 0).result.is_ok());
    assert!(sensor.handler_set(Event::TemperatureChange, change, 0).result.is_ok());
    assert!(sensor.handler_set(Event::Attach, attach, 0).result.is_ok());
    assert_eq!(
        sensor.teardown(Ok(false)),
        vec![
            Action::Call(NativeCall::Delete {
                class: ChannelClass::TemperatureSensor,
                handle
            }),
            Action::ReleaseCallback { event: Event::Detach, context: detach },
            Action::ReleaseCallback { event: Event::TemperatureChange, context: change },
            Action::ReleaseCallback { event: Event::Attach, context: attach },
        ]
    );
}

#[test]
fn a_replaced_slot_keeps_its_place() {
    let handle = Handle::from_addr(0x3000);
    let mut sensor = TemperatureSensor::from(handle);
    let first = Context::from_addr(0x10);
    let other = Context::from_addr(0x20);
    let second = Context::from_addr(0x30);
    assert_eq!(sensor.handler_set(Event::Attach, first, 0).release, None);
    assert_eq!(sensor.handler_set(Event::Detach, other, 0).release, None);
    assert!(!sensor.admits(first));
    assert!(sensor.admits(second));
    assert!(!sensor.admits(Context::from_addr(0)));
    let settlement = sensor.handler_set(Event::Attach, second, 0);
    assert_eq!(settlement.release, Some(first));
    assert_eq!(settlement.result, Ok(()));
    assert!(sensor.admits(first));
    assert_eq!(sensor.handler(Event::Attach), Some(second));
    assert_eq!(sensor.handler(Event::Detach), Some(other));
    assert_eq!(sensor.handler(Event::TemperatureChange), None);
    assert_eq!(
        sensor.teardown(Ok(false))[1..],
        [
            Action::ReleaseCallback { event: Event::Attach, context: second },
            Action::ReleaseCallback { event: Event::Detach, context: other },
        ]
    );
}

#[test]
fn the_trampoline_does_nothing_without_a_context() {
    let handle = Handle::from_addr(0x500);
    assert!(trampoline(handle, Context::from_addr(0)).is_none());
    let view = trampoline(handle, Context::from_addr(0x9008)).unwrap();
    assert_eq!(view.as_handle(), handle);
    assert!(view.teardown().is_empty());
    assert!(Handle::null().is_null());
    assert!(!handle.is_null());
}

#[test]
fn the_manager_tells_of_devices_through_views() {
    let mut mock = Mock::new();
    let (code, value) = mock.perform(PhidgetManager::create());
    let mut manager = PhidgetManager::new(code, Handle::from_addr(value as usize)).unwrap();
    let handle = manager.as_handle();
    let seen = Rc::new(RefCell::new(Vec::new()));
    let drops = Rc::new(Cell::new(0));

    let context = mock.box_callback(recorder(&seen, &drops));
    assert!(manager.admits(context));
    let call = manager.set_on_attach_handler(context);
    assert_eq!(
        call,
        NativeCall::SetHandler { handle, event: Event::DeviceAttach, context }
    );
    let (code, _) = mock.perform(call);
    let settlement = manager.handler_set(Event::DeviceAttach, context, code);
    assert_eq!(settle(&mut mock, settlement), Ok(()));
    assert_eq!(
        manager.set_on_detach_handler(Context::from_addr(0x44)),
        NativeCall::SetHandler {
            handle,
            event: Event::DeviceDetach,
            context: Context::from_addr(0x44)
        }
    );

    assert_eq!(ReturnCode::result(mock.perform(manager.open()).0), Ok(()));
    assert!(mock.fire(handle, Event::DeviceAttach, 0));
    assert_eq!(seen.borrow().len(), 1);
    assert_eq!(manager.handler(Event::DeviceAttach), Some(context));

    let plan = manager.teardown();
    assert_eq!(
        plan,
        vec![
            Action::Call(NativeCall::ManagerClose { handle }),
            Action::Call(NativeCall::ManagerDelete { handle }),
            Action::ReleaseCallback { event: Event::DeviceAttach, context },
        ]
    );
    mock.run(plan);
    assert_eq!(drops.get(), 1);
    assert!(!mock.fire(handle, Event::DeviceAttach, 0));
}

#[test]
fn a_registration_without_a_slot_is_released_only_when_it_fails() {
    let context = Context::from_addr(0x9100);
    let kept = settle_unowned(context, 0);
    assert_eq!(kept.result, Ok(()));
    assert_eq!(kept.release, None);
    let failed = settle_unowned(context, 21);
    assert_eq!(failed.result, Err(ReturnCode::InvalidArg));
    assert_eq!(failed.release, Some(context));
}
