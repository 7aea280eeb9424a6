//! The waiter that a `wait` call hands out: a small state machine shared
//! between the task that waits and the side that finishes the wait.
use crate::sync::{
    clone_waker, downgrade, lock, new_mutex, upgrade, vec_get, vec_len, wake, wake_or_abort, WeakRef,
};
use std::sync::Arc;
use std::task::Waker;
use vstd::prelude::*;

verus! {

/// Where a waiter stands: not polled yet, polled and parked with the waker of
/// the task that polled last, or finished.
pub enum State {
    Init,
    Work(Waker),
    Done,
}

impl State {
    /// The state after a poll with `waker`: a finished waiter stays finished,
    /// any other remembers the waker to wake.
    pub open spec fn polled(self, waker: Waker) -> State {
        if self is Done {
            self
        } else {
            State::Work(waker)
        }
    }

    /// The waker that finishing this state wakes, if any.
    pub open spec fn pending_waker(self) -> Option<Waker> {
        match self {
            State::Work(w) => Some(w),
            _ => None,
        }
    }

    /// Whether the waiter is finished.
    pub fn is_done(&self) -> (done: bool)
        ensures
            done == (*self is Done),
    {
        match self {
            State::Done => true,
            _ => false,
        }
    }

    /// Finishes the waiter and hands out the waker that it held, if any.
    pub fn take_waker(&mut self) -> (woken: Option<Waker>)
        ensures
            *final(self) == State::Done,
            woken == old(self).pending_waker(),
        opens_invariants none
        no_unwind
    {
        let mut previous = State::Done;
        core::mem::swap(self, &mut previous);
        match previous {
            State::Work(waker) => Some(waker),
            _ => None,
        }
    }

    /// Finishes the waiter and wakes the task that was parked on it.
    pub fn done(&mut self)
        ensures
            *final(self) == State::Done,
    {
        match self.take_waker() {
            Some(waker) => wake(waker),
            None => {},
        }
    }

    /// One poll of the waiter on behalf of the task that `waker` wakes: ready
    /// when it is finished, and then nothing changes and the waker is not
    /// cloned; otherwise it keeps a clone of the waker (`poll_with`).
    pub fn poll(&mut self, waker: &Waker) -> (ready: bool)
        ensures
            ready == (*old(self) is Done),
            ready ==> *final(self) == *old(self),
            !ready ==> (*final(self) matches State::Work(c) && cloned(*waker, c)),
    {
        if self.is_done() {
            return true;
        }
        // The waker is cloned only when it is kept.
        self.poll_with(clone_waker(waker))
    }

    /// One poll of the waiter: ready when it is finished; otherwise it keeps
    /// `waker`, which finishing it will wake.
    pub fn poll_with(&mut self, waker: Waker) -> (ready: bool)
        ensures
            ready == (*old(self) is Done),
            *final(self) == old(self).polled(waker),
    {
        match self {
            State::Done => true,
            _ => {
                *self = State::Work(waker);
                false
            },
        }
    }
}

/// Once finished, a waiter stays finished: polling it is ready and changes
/// nothing, and finishing it again wakes nobody.
pub proof fn lemma_done_is_final(waker: Waker)
    ensures
        State::Done.polled(waker) == State::Done,
        State::Done.pending_waker() is None,
{
}

/// A waiter that is not finished wakes, when finished, the waker of the poll
/// that came last.
pub proof fn lemma_last_poll_is_woken(s: State, first: Waker, last: Waker)
    requires
        !(s is Done),
    ensures
        s.polled(last).pending_waker() == Some(last),
        s.polled(first).polled(last).pending_waker() == Some(last),
{
}

/// The handle of a waiter: the state, shared with whoever finishes the wait,
/// and a record of the state that it started in.
pub struct Waiter(Arc<spin::Mutex<State>>, Ghost<State>);

impl Waiter {
    /// The state that the waiter started in.
    pub closed spec fn born(&self) -> State {
        self.1@
    }

    /// A waiter that starts in `state`.
    pub fn construct(state: State) -> (w: Waiter)
        ensures
            w.born() == state,
    {
        let ghost start = state;
        Waiter(Arc::new(new_mutex(state)), Ghost(start))
    }

    /// The waiter's shared state.
    pub closed spec fn shared(&self) -> spin::Mutex<State> {
        *self.0
    }

    /// A weak reference to the waiter's state, for the side that finishes it.
    pub fn weak(&self) -> (w: WeakRef<spin::Mutex<State>>)
        ensures
            w.target() == self.shared(),
    {
        downgrade(&self.0)
    }

    /// Polls the waiter on behalf of the task that `waker` wakes: true when the
    /// wait is over, otherwise a clone of the waker is kept (`State::poll`).
    pub fn poll_ready(&self, waker: &Waker) -> (ready: bool) {
        let mut guard = lock(&self.0);
        let state = guard.value();
        state.poll(waker)
    }
}

/// What finishing a waiter reached: nothing when its handle was gone, else
/// the waiter's shared state and the state that it was left in.
pub type Reached = Option<(spin::Mutex<State>, State)>;

/// The waiter reached through `weak` is the one that `weak` was made from,
/// and it was left finished.
pub open spec fn finished_through(weak: WeakRef<spin::Mutex<State>>, reached: Reached) -> bool {
    reached matches Some((m, s)) ==> m == weak.target() && s == State::Done
}

/// Finishes the waiter behind `weak` if it is still alive, and wakes the task
/// that was parked on it (`State::take_waker`); one whose handle has been
/// dropped has nobody left to wake. While a shared state is being dropped
/// (`dropping`), which must not unwind, a waker that panics aborts the
/// process (`wake_or_abort`); otherwise its panic unwinds (`wake`).
pub fn finish_waiter(weak: &WeakRef<spin::Mutex<State>>, dropping: bool) -> (reached: Ghost<Reached>)
    ensures
        finished_through(*weak, reached@),
    opens_invariants none
    no_unwind when dropping
{
    match upgrade(weak) {
        Some(shared) => {
            let mut guard = lock(&shared);
            let ghost m = guard.locks();
            let state = guard.value();
            let taken = state.take_waker();
            let ghost left: Reached = Some((m, *state));
            match taken {
                Some(waker) => {
                    if dropping {
                        wake_or_abort(waker)
                    } else {
                        wake(waker)
                    }
                },
                None => {},
            }
            Ghost(left)
        },
        None => Ghost(None),
    }
}

/// Finishes every waiter in `waiters`, in order (`finish_waiter`): each one
/// still alive is reached, and left finished.
pub fn finish_waiters(waiters: &Vec<WeakRef<spin::Mutex<State>>>, dropping: bool) -> (reached: Ghost<
    Seq<Reached>,
>)
    ensures
        reached@.len() == waiters@.len(),
        forall|i: int| 0 <= i < waiters@.len() ==> #[trigger] finished_through(waiters@[i], reached@[i]),
    opens_invariants none
    no_unwind when dropping
{
    let n = vec_len(waiters);
    let mut i: usize = 0;
    let ghost mut all: Seq<Reached> = Seq::empty();
    while i < n
        invariant
            i <= n,
            n == waiters@.len(),
            all.len() == i,
            forall|k: int| 0 <= k < i ==> #[trigger] finished_through(waiters@[k], all[k]),
        decreases n - i,
    {
        let one = finish_waiter(vec_get(waiters, i), dropping);
        proof {
            all = all.push(one@);
        }
        i = i + 1;
    }
    Ghost(all)
}

} // verus!
