//! A wait group: workers join and leave, and waiting finishes once no worker
//! is left.
use crate::sync::{lock, new_mutex, strong_count, take_vec, WeakRef};
use crate::waiter::{finish_waiters, State, Waiter};
use std::sync::Arc;
use vstd::prelude::*;

verus! {

/// The items of `ws` whose flag in `alive` is set, in their order.
pub open spec fn kept<A>(ws: Seq<A>, alive: Seq<bool>) -> Seq<A>
    decreases ws.len(),
{
    if ws.len() == 0 {
        Seq::empty()
    } else {
        let rest = kept(ws.drop_last(), alive.drop_last());
        if alive.last() {
            rest.push(ws.last())
        } else {
            rest
        }
    }
}

/// Whether each observed strong count shows a handle alive: above zero.
pub open spec fn alive_of(counts: Seq<usize>) -> Seq<bool> {
    counts.map_values(|c: usize| c > 0)
}

/// Pruning keeps every waiter observed alive.
pub proof fn lemma_kept_keeps_alive<A>(ws: Seq<A>, alive: Seq<bool>, i: int)
    requires
        alive.len() == ws.len(),
        0 <= i < ws.len(),
        alive[i],
    ensures
        kept(ws, alive).contains(ws[i]),
    decreases ws.len(),
{
    let last = ws.len() - 1;
    if i < last {
        lemma_kept_keeps_alive(ws.drop_last(), alive.drop_last(), i);
        let rest = kept(ws.drop_last(), alive.drop_last());
        let k = choose|k: int| 0 <= k < rest.len() && rest[k] == ws.drop_last()[i];
        if alive.last() {
            assert(rest.push(ws.last())[k] == ws[i]);
        }
    } else {
        assert(kept(ws, alive).last() == ws[i]);
    }
}

/// Pruning keeps only waiters observed alive.
pub proof fn lemma_kept_only_alive<A>(ws: Seq<A>, alive: Seq<bool>, x: A)
    requires
        alive.len() == ws.len(),
        kept(ws, alive).contains(x),
    ensures
        exists|i: int| 0 <= i < ws.len() && alive[i] && ws[i] == x,
    decreases ws.len(),
{
    let rest = kept(ws.drop_last(), alive.drop_last());
    if alive.last() && x == ws.last() {
        assert(alive[ws.len() - 1] && ws[ws.len() - 1] == x);
    } else {
        if alive.last() {
            let k = choose|k: int| 0 <= k < rest.push(ws.last()).len() && rest.push(ws.last())[k] == x;
            assert(rest[k] == x);
        }
        lemma_kept_only_alive(ws.drop_last(), alive.drop_last(), x);
        let i = choose|i: int| 0 <= i < ws.drop_last().len() && alive.drop_last()[i] && ws.drop_last()[i] == x;
        assert(alive[i] && ws[i] == x);
    }
}

/// When every waiter is observed alive, pruning keeps all of them.
pub proof fn lemma_kept_all_alive<A>(ws: Seq<A>, alive: Seq<bool>)
    requires
        alive.len() == ws.len(),
        forall|i: int| 0 <= i < alive.len() ==> alive[i],
    ensures
        kept(ws, alive) == ws,
    decreases ws.len(),
{
    if ws.len() > 0 {
        lemma_kept_all_alive(ws.drop_last(), alive.drop_last());
        assert(ws.drop_last().push(ws.last()) =~= ws);
    }
}

/// What the verified code sees of a group's locked state.
pub struct GroupView {
    /// How many workers have joined and not left.
    pub count: usize,
    pub waiters: Seq<WeakRef<spin::Mutex<State>>>,
}

impl GroupView {
    /// The group after a worker joins. The count is held at the largest
    /// `usize`, which the workers alive at once cannot reach: each of them holds
    /// a strong reference to the group, and those are fewer.
    pub open spec fn joined(self) -> GroupView {
        if self.count < usize::MAX {
            GroupView { count: (self.count + 1) as usize, ..self }
        } else {
            self
        }
    }

    /// The group after a worker leaves: one worker fewer, and when none is
    /// left, no waiter either. A group without workers stays as it is.
    pub open spec fn left(self) -> GroupView {
        if self.count == 0 {
            self
        } else if self.count == 1 {
            GroupView { count: 0, waiters: Seq::empty() }
        } else {
            GroupView { count: (self.count - 1) as usize, ..self }
        }
    }

    /// The waiters that a worker's leaving hands out to be finished: all of
    /// them when it is the last worker, none otherwise.
    pub open spec fn released(self) -> Seq<WeakRef<spin::Mutex<State>>> {
        if self.count == 1 {
            self.waiters
        } else {
            Seq::empty()
        }
    }

    /// The state that a new waiter starts in: finished at once when no worker
    /// is in the group, otherwise not yet polled.
    pub open spec fn waiter_start(self) -> State {
        if self.count == 0 {
            State::Done
        } else {
            State::Init
        }
    }

    /// The group after `n` workers have left, one after another.
    pub open spec fn left_n(self, n: nat) -> GroupView
        decreases n,
    {
        if n == 0 {
            self
        } else {
            self.left_n((n - 1) as nat).left()
        }
    }
}

/// A worker that joins and then leaves gives the group back its count; its
/// waiters too, unless it was the only worker.
pub proof fn lemma_join_then_leave(v: GroupView)
    requires
        v.count < usize::MAX,
    ensures
        v.joined().left().count == v.count,
        v.count > 0 ==> v.joined().left() == v,
        v.joined().released() == (if v.count == 0 { v.waiters } else { Seq::empty() }),
{
}

/// A waiter registered while `v.count` workers are in the group stays
/// registered while all but one of them leave, and the last one to leave hands
/// it out to be finished.
pub proof fn lemma_last_leave_releases(v: GroupView, w: WeakRef<spin::Mutex<State>>)
    requires
        v.count > 0,
        v.waiters.contains(w),
    ensures
        v.left_n((v.count - 1) as nat).count == 1,
        v.left_n((v.count - 1) as nat).released().contains(w),
        v.left_n(v.count as nat).count == 0,
{
    lemma_leaving_keeps_waiters(v, (v.count - 1) as nat);
}

/// While workers remain after `n` leave, the waiters stay as they are.
proof fn lemma_leaving_keeps_waiters(v: GroupView, n: nat)
    requires
        n < v.count,
    ensures
        v.left_n(n).count == v.count - n,
        v.left_n(n).waiters == v.waiters,
    decreases n,
{
    if n > 0 {
        lemma_leaving_keeps_waiters(v, (n - 1) as nat);
    }
}

/// The locked state of a group.
pub struct Inner {
    count: usize,
    waiters: Vec<WeakRef<spin::Mutex<State>>>,
}

impl View for Inner {
    type V = GroupView;

    closed spec fn view(&self) -> GroupView {
        GroupView { count: self.count, waiters: self.waiters@ }
    }
}

impl Inner {
    /// A group without workers or waiters.
    pub fn new() -> (g: Inner)
        ensures
            g@ == (GroupView { count: 0, waiters: Seq::empty() }),
    {
        Inner { count: 0, waiters: Vec::new() }
    }

    /// A worker joins.
    pub fn join(&mut self)
        ensures
            final(self)@ == old(self)@.joined(),
    {
        if self.count < usize::MAX {
            self.count = self.count + 1;
        }
    }

    /// A worker leaves; hands out the waiters to finish when it was the last.
    pub fn leave(&mut self) -> (released: Vec<WeakRef<spin::Mutex<State>>>)
        ensures
            final(self)@ == old(self)@.left(),
            released@ == old(self)@.released(),
        opens_invariants none
        no_unwind
    {
        if self.count == 1 {
            self.count = 0;
            take_vec(&mut self.waiters)
        } else {
            if self.count > 1 {
                self.count = self.count - 1;
            }
            // An empty vector, had without allocating: the waiters are taken
            // out and put back.
            let mut none = take_vec(&mut self.waiters);
            core::mem::swap(&mut none, &mut self.waiters);
            none
        }
    }

    /// The state that a new waiter starts in.
    pub fn waiter_start(&self) -> (s: State)
        ensures
            s == self@.waiter_start(),
    {
        if self.count == 0 {
            State::Done
        } else {
            State::Init
        }
    }

    /// Makes a new waiter, finished at once when no worker is in the group;
    /// otherwise drops the waiters whose handles were observed gone
    /// (`observe_counts`, `add_waiter`) and registers the new one after the
    /// kept ones.
    pub fn spawn_waiter(&mut self) -> (w: Waiter)
        ensures
            w.born() == old(self)@.waiter_start(),
            final(self)@.count == old(self)@.count,
            old(self)@.count == 0 ==> final(self)@ == old(self)@,
            old(self)@.count > 0 ==> {
                let n = final(self)@.waiters.len();
                &&& n >= 1
                &&& final(self)@.waiters[n - 1].target() == w.shared()
                &&& exists|counts: Seq<usize>|
                    counts.len() == old(self)@.waiters.len()
                        && #[trigger] kept(old(self)@.waiters, alive_of(counts)) == final(self)@.waiters.drop_last()
            },
    {
        let waiter = Waiter::construct(self.waiter_start());
        if self.count == 0 {
            return waiter;
        }
        let counts = self.observe_counts();
        let ghost before = self@.waiters;
        self.add_waiter(waiter.weak(), &counts);
        proof {
            assert(self@.waiters.drop_last() =~= kept(before, alive_of(counts@)));
        }
        waiter
    }

    /// How many strong references each registered waiter's handle has, as
    /// observed now (`strong_count`); other threads decide the counts, so only
    /// their number is stated.
    pub fn observe_counts(&self) -> (counts: Vec<usize>)
        ensures
            counts@.len() == self@.waiters.len(),
    {
        let mut counts: Vec<usize> = Vec::new();
        let n = self.waiters.len();
        let mut i: usize = 0;
        while i < n
            invariant
                i <= n,
                n == self@.waiters.len(),
                counts@.len() == i,
            decreases n - i,
        {
            counts.push(strong_count(&self.waiters[i]));
            i = i + 1;
        }
        counts
    }

    /// Registers waiter `w` while workers remain, after dropping the waiters
    /// whose handles are gone: `counts` holds, for each registered waiter in
    /// order, the strong references observed to its handle, and exactly the
    /// waiters with a count above zero are kept. A group without workers
    /// registers nothing.
    pub fn add_waiter(&mut self, w: WeakRef<spin::Mutex<State>>, counts: &Vec<usize>)
        requires
            counts@.len() == old(self)@.waiters.len(),
        ensures
            final(self)@.count == old(self)@.count,
            old(self)@.count == 0 ==> final(self)@ == old(self)@,
            old(self)@.count > 0 ==> final(self)@.waiters == kept(old(self)@.waiters, alive_of(counts@)).push(w),
    {
        if self.count == 0 {
            return;
        }
        let old_waiters = take_vec(&mut self.waiters);
        let ghost all = old_waiters@;
        assert(all.len() == old_waiters.len());
        let mut survivors: Vec<WeakRef<spin::Mutex<State>>> = Vec::new();
        let mut pos: usize = 0;
        for item in it: old_waiters.into_iter()
            invariant
                it.seq() == all,
                all.len() <= usize::MAX,
                pos == it.index(),
                counts@.len() == all.len(),
                survivors@ == kept(all.take(it.index() as int), alive_of(counts@).take(it.index() as int)),
        {
            let ghost i = it.index() as int;
            proof {
                assert(all.take(i + 1).drop_last() =~= all.take(i));
                assert(alive_of(counts@).take(i + 1).drop_last() =~= alive_of(counts@).take(i));
            }
            if counts[pos] > 0 {
                survivors.push(item);
            }
            pos = pos + 1;
        }
        proof {
            assert(all.take(all.len() as int) =~= all);
            assert(alive_of(counts@).take(all.len() as int) =~= alive_of(counts@));
        }
        survivors.push(w);
        self.waiters = survivors;
    }
}

impl Default for Inner {
    /// A group without workers or waiters.
    fn default() -> (g: Inner)
        ensures
            g@ == (GroupView { count: 0, waiters: Seq::empty() }),
    {
        Inner::new()
    }
}

/// A wait group. Clones share the group.
///
/// The group's state is shared behind a lock, so each method is specified by
/// the step that it applies to the locked state (the methods of `Inner`).
///
/// Besides the shared state, a handle records the state that its group was
/// made with.
#[derive(Clone)]
pub struct Group(Arc<spin::Mutex<Inner>>, Ghost<GroupView>);

impl Default for Group {
    /// A group without workers, as `Group::new`.
    fn default() -> (g: Group)
        ensures
            g.born() == (GroupView { count: 0, waiters: Seq::empty() }),
    {
        Group::new()
    }
}

impl Group {
    /// The state that this group was made with.
    pub closed spec fn born(&self) -> GroupView {
        self.1@
    }

    /// The group's shared state.
    pub closed spec fn shared(&self) -> spin::Mutex<Inner> {
        *self.0
    }

    /// A group without workers.
    pub fn new() -> (g: Group)
        ensures
            g.born() == (GroupView { count: 0, waiters: Seq::empty() }),
    {
        let inner = Inner::new();
        let ghost start = inner@;
        Group(Arc::new(new_mutex(inner)), Ghost(start))
    }

    /// A new worker of the group (`Inner::join`); the worker leaves when it
    /// is dropped.
    pub fn worker(&self) -> (w: Worker)
        ensures
            w.group() == self.shared(),
            w.joined_to() == w.joined_from().joined(),
    {
        Worker::incr(&self.0)
    }

    /// A waiter that finishes when no worker is left (`Inner::spawn_waiter`):
    /// finished at once when there is none, otherwise registered.
    pub fn wait(&self) -> (w: Waiter)
        ensures
            exists|group: GroupView| w.born() == group.waiter_start(),
    {
        let mut guard = lock(&self.0);
        let inner = guard.value();
        inner.spawn_waiter()
    }
}

/// A worker of a group. Clones are workers of their own; each leaves the
/// group when it is dropped. Besides the shared state, a worker records the
/// group's state just before and just after it joined.
pub struct Worker(Arc<spin::Mutex<Inner>>, Ghost<(GroupView, GroupView)>);

impl Worker {
    /// The shared state of the group that this worker belongs to.
    pub closed spec fn group(&self) -> spin::Mutex<Inner> {
        *self.0
    }

    /// The group's state just before this worker joined.
    pub closed spec fn joined_from(&self) -> GroupView {
        self.1@.0
    }

    /// The group's state just after this worker joined.
    pub closed spec fn joined_to(&self) -> GroupView {
        self.1@.1
    }

    /// A new worker of the group behind `inner`: under the group's lock the
    /// count goes up by one (`Inner::join`).
    fn incr(inner: &Arc<spin::Mutex<Inner>>) -> (w: Worker)
        ensures
            w.group() == **inner,
            w.joined_to() == w.joined_from().joined(),
    {
        let mut guard = lock(inner);
        let state = guard.value();
        let ghost before = state@;
        state.join();
        let ghost after = state@;
        Worker(inner.clone(), Ghost((before, after)))
    }
}

/// A worker that joins a group is counted: below the largest count, the
/// count just after it joined is one more than just before, and at least one.
pub proof fn lemma_joined_worker_is_counted(w: Worker)
    requires
        w.joined_to() == w.joined_from().joined(),
        w.joined_from().count < usize::MAX,
    ensures
        w.joined_to().count == w.joined_from().count + 1,
        w.joined_to().count >= 1,
        w.joined_to().waiters == w.joined_from().waiters,
{
}

impl Clone for Worker {
    /// Another worker of the same group (`Inner::join`).
    fn clone(&self) -> (w: Worker)
        ensures
            w.group() == self.group(),
            w.joined_to() == w.joined_from().joined(),
    {
        Worker::incr(&self.0)
    }
}

impl Drop for Worker {
    /// The worker leaves (`Inner::leave`); when it was the last, the waiters
    /// are finished. A drop must not unwind, so a waker that panics while
    /// being woken here aborts the process (`finish_waiter`).
    fn drop(&mut self)
        opens_invariants none
        no_unwind
    {
        let mut guard = lock(&self.0);
        let state = guard.value();
        let released = state.leave();
        finish_waiters(&released, true);
    }
}

} // verus!
