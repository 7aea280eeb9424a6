use std::sync::atomic::{AtomicUsize, Ordering};
use std::sync::Arc;
use std::task::{Wake, Waker};

use diego::context::WaiterImpl;
use diego::waiter::{State, Waiter};

struct Calls(AtomicUsize);

impl Wake for Calls {
    fn wake(self: Arc<Self>) {
        self.0.fetch_add(1, Ordering::SeqCst);
    }
}

fn new_waker() -> (Arc<Calls>, Waker) {
    let calls = Arc::new(Calls(AtomicUsize::new(0)));
    (calls.clone(), Waker::from(calls))
}

fn calls(c: &Arc<Calls>) -> usize {
    c.0.load(Ordering::SeqCst)
}

#[test]
fn state_done_wakes_parked_task() {
    let (count, w) = new_waker();
    let mut state = State::Init;
    assert!(!state.poll_with(w));
    assert!(matches!(state, State::Work(_)));
    state.done();
    assert!(matches!(state, State::Done));
    assert_eq!(calls(&count), 1);
    state.done();
    assert_eq!(calls(&count), 1);
}

#[test]
fn state_done_without_poll_wakes_nobody() {
    let mut state = State::Init;
    state.done();
    assert!(matches!(state, State::Done));
    let (count, w) = new_waker();
    assert!(state.poll_with(w));
    assert!(matches!(state, State::Done));
    assert_eq!(calls(&count), 0);
}

#[test]
fn state_take_waker_hands_out_latest() {
    let (first, w1) = new_waker();
    let (second, w2) = new_waker();
    let mut state = State::Init;
    assert!(!state.poll_with(w1));
    assert!(!state.poll_with(w2));
    let taken = state.take_waker();
    assert!(matches!(state, State::Done));
    taken.expect("a parked waker").wake();
    assert_eq!(calls(&first), 0);
    assert_eq!(calls(&second), 1);
    assert!(state.take_waker().is_none());
}

#[test]
fn waiter_handle_polls() {
    let waiter = Waiter::construct(State::Init);
    let (_, w) = new_waker();
    assert!(!waiter.poll_ready(&w));
    let finished = Waiter::construct(State::Done);
    assert!(finished.poll_ready(&w));
}

#[test]
fn waiter_impl_done_wakes_parked_task() {
    let (count, w) = new_waker();
    let mut state = WaiterImpl::Init;
    assert!(!state.poll_with(w));
    state.done();
    assert!(matches!(state, WaiterImpl::Done));
    assert_eq!(calls(&count), 1);
    let (other, w2) = new_waker();
    assert!(state.poll_with(w2));
    assert_eq!(calls(&other), 0);
}
