//! Contexts: a tree of scopes, each of which is done once it, or a context
//! above it, has been marked done; waiters on a context finish then.
use crate::sync::{
    clone_waker, downgrade, lock, Locked, new_mutex, upgrade, vec_get, vec_len, wake, WeakRef,
};
use std::sync::Arc;
use std::task::Waker;
use vstd::prelude::*;

verus! {

/// A weak reference to a context (`std::sync::Weak<spin::Mutex<ContextImpl>>`),
/// as a context holds its children. It is a type of its own because a context
/// holds such references to contexts, and `WeakRef` cannot be declared to
/// accept that.
#[verifier::external_body]
pub struct ContextRef {
    weak: std::sync::Weak<spin::Mutex<ContextImpl>>,
}

/// `std::sync::Arc::downgrade` on a context.
#[verifier::external_body]
fn downgrade_context(a: &Arc<spin::Mutex<ContextImpl>>) -> ContextRef {
    ContextRef { weak: Arc::downgrade(a) }
}

/// `std::sync::Weak::upgrade` on a context: a strong reference while the
/// context is alive. Which comes back depends on other threads, so nothing is
/// stated.
#[verifier::external_body]
fn upgrade_context(c: &ContextRef) -> Option<Arc<spin::Mutex<ContextImpl>>> {
    c.weak.upgrade()
}

/// Where a context's waiter stands: not polled yet, parked with the waker of
/// the task that polled last, or finished.
pub enum WaiterImpl {
    Init,
    Wait(Waker),
    Done,
}

impl WaiterImpl {
    /// The state after a poll with `waker`: a finished waiter stays finished,
    /// any other remembers the waker to wake.
    pub open spec fn polled(self, waker: Waker) -> WaiterImpl {
        if self is Done {
            self
        } else {
            WaiterImpl::Wait(waker)
        }
    }

    /// The waker that finishing this state wakes, if any.
    pub open spec fn pending_waker(self) -> Option<Waker> {
        match self {
            WaiterImpl::Wait(w) => Some(w),
            _ => None,
        }
    }

    /// Whether the waiter is finished.
    pub fn is_done(&self) -> (done: bool)
        ensures
            done == (*self is Done),
    {
        match self {
            WaiterImpl::Done => true,
            _ => false,
        }
    }

    /// Finishes the waiter and hands out the waker that it held, if any.
    pub fn take_waker(&mut self) -> (woken: Option<Waker>)
        ensures
            *final(self) == WaiterImpl::Done,
            woken == old(self).pending_waker(),
    {
        let mut previous = WaiterImpl::Done;
        core::mem::swap(self, &mut previous);
        match previous {
            WaiterImpl::Wait(waker) => Some(waker),
            _ => None,
        }
    }

    /// Finishes the waiter and wakes the task that was parked on it.
    pub fn done(&mut self)
        ensures
            *final(self) == WaiterImpl::Done,
    {
        match self.take_waker() {
            Some(waker) => wake(waker),
            None => {},
        }
    }

    /// One poll of the waiter on behalf of the task that `waker` wakes: ready
    /// when it is finished, and then nothing changes and the waker is not
    /// cloned; otherwise it keeps a clone of the waker (`poll_with`).
    pub fn poll(&mut self, waker: &Waker) -> (ready: bool)
        ensures
            ready == (*old(self) is Done),
            ready ==> *final(self) == *old(self),
            !ready ==> (*final(self) matches WaiterImpl::Wait(c) && cloned(*waker, c)),
    {
        if self.is_done() {
            return true;
        }
        // The waker is cloned only when it is kept.
        self.poll_with(clone_waker(waker))
    }

    /// One poll of the waiter: ready when it is finished; otherwise it keeps
    /// `waker`, which finishing it will wake.
    pub fn poll_with(&mut self, waker: Waker) -> (ready: bool)
        ensures
            ready == (*old(self) is Done),
            *final(self) == old(self).polled(waker),
    {
        match self {
            WaiterImpl::Done => true,
            _ => {
                *self = WaiterImpl::Wait(waker);
                false
            },
        }
    }
}

/// The handle of a context's waiter: the shared state, and a record of the
/// state that it started in.
pub struct Waiter(Arc<spin::Mutex<WaiterImpl>>, Ghost<WaiterImpl>);

impl Waiter {
    /// The state that the waiter started in.
    pub closed spec fn born(&self) -> WaiterImpl {
        self.1@
    }

    /// A waiter that has not been polled.
    pub fn init() -> (w: Waiter)
        ensures
            w.born() == WaiterImpl::Init,
    {
        Waiter(Arc::new(new_mutex(WaiterImpl::Init)), Ghost(WaiterImpl::Init))
    }

    /// A waiter that is finished already.
    pub fn done() -> (w: Waiter)
        ensures
            w.born() == WaiterImpl::Done,
    {
        Waiter(Arc::new(new_mutex(WaiterImpl::Done)), Ghost(WaiterImpl::Done))
    }

    /// The waiter's shared state.
    pub closed spec fn shared(&self) -> spin::Mutex<WaiterImpl> {
        *self.0
    }

    /// A weak reference to the waiter's state, for the context that finishes it.
    pub fn weak(&self) -> (w: WeakRef<spin::Mutex<WaiterImpl>>)
        ensures
            w.target() == self.shared(),
    {
        downgrade(&self.0)
    }

    /// Polls the waiter on behalf of the task that `waker` wakes: true when the
    /// wait is over, otherwise a clone of the waker is kept (`WaiterImpl::poll`).
    pub fn poll_ready(&self, waker: &Waker) -> (ready: bool) {
        let mut guard = lock(&self.0);
        let state = guard.value();
        state.poll(waker)
    }
}

/// What finishing a context's waiter reached: nothing when its handle was
/// gone, else the waiter's shared state and the state that it was left in.
pub type WaiterReached = Option<(spin::Mutex<WaiterImpl>, WaiterImpl)>;

/// The waiter reached through `weak` is the one that `weak` was made from,
/// and it was left finished, whatever state it was in.
pub open spec fn waiter_finished_through(weak: WeakRef<spin::Mutex<WaiterImpl>>, reached: WaiterReached) -> bool {
    reached matches Some((m, s)) ==> m == weak.target() && s == WaiterImpl::Done
}

/// A context reached when a context at `parent_depth` is marked done was left
/// done, unless it did not lie below that context (which a live child always
/// does).
pub open spec fn done_below_reached(parent_depth: u64, reached: Option<ContextImpl>) -> bool {
    reached matches Some(c) ==> (c is Done || (c matches ContextImpl::Init { depth, .. } && depth <= parent_depth))
}

/// Finishes each waiter in `waiters` that is still alive, in order, and hands
/// back what it reached for each.
fn finish_context_waiters(waiters: &Vec<WeakRef<spin::Mutex<WaiterImpl>>>) -> (reached: Ghost<Seq<WaiterReached>>)
    ensures
        reached@.len() == waiters@.len(),
        forall|i: int| 0 <= i < waiters@.len() ==> #[trigger] waiter_finished_through(waiters@[i], reached@[i]),
{
    let n = vec_len(waiters);
    let mut i: usize = 0;
    let ghost mut all: Seq<WaiterReached> = Seq::empty();
    while i < n
        invariant
            i <= n,
            n == waiters@.len(),
            all.len() == i,
            forall|k: int| 0 <= k < i ==> #[trigger] waiter_finished_through(waiters@[k], all[k]),
        decreases n - i,
    {
        match upgrade(vec_get(waiters, i)) {
            Some(shared) => {
                let mut guard = lock(&shared);
                let ghost m = guard.locks();
                let state = guard.value();
                state.done();
                proof {
                    all = all.push(Some((m, *state)));
                }
            },
            None => {
                proof {
                    all = all.push(None);
                }
            },
        }
        i = i + 1;
    }
    Ghost(all)
}

/// The locked state of a context: live, with the waiters and children to
/// notify and its distance from the root, or done.
pub enum ContextImpl {
    Init { waiters: Vec<WeakRef<spin::Mutex<WaiterImpl>>>, children: Vec<ContextRef>, depth: u64 },
    Done,
}

/// What marking a context done has to notify: its children and its waiters.
pub struct Pending {
    pub children: Vec<ContextRef>,
    pub waiters: Vec<WeakRef<spin::Mutex<WaiterImpl>>>,
}

impl ContextImpl {
    /// How far a live context is from the deepest depth; a child is nearer.
    pub open spec fn rank(self) -> int {
        match self {
            ContextImpl::Init { depth, .. } => u64::MAX - depth,
            ContextImpl::Done => 0,
        }
    }

    /// `self` is the state of a new child of `parent`: done when `parent` is,
    /// otherwise live one level deeper (held at the largest `u64`, which no
    /// chain of live contexts reaches), with nothing registered.
    pub open spec fn is_child_of(self, parent: ContextImpl) -> bool {
        match parent {
            ContextImpl::Init { depth: p, .. } => self matches ContextImpl::Init { waiters, children, depth }
                && waiters@.len() == 0 && children@.len() == 0
                && depth == (if p < u64::MAX { (p + 1) as u64 } else { p }),
            ContextImpl::Done => self is Done,
        }
    }

    pub fn is_done(&self) -> (done: bool)
        ensures
            done == (*self is Done),
    {
        match self {
            ContextImpl::Done => true,
            _ => false,
        }
    }

    /// Marks the context done and hands out what it has to notify; a context
    /// that is done already hands out nothing.
    pub fn finish(&mut self) -> (pending: Option<Pending>)
        ensures
            *final(self) is Done,
            match *old(self) {
                ContextImpl::Init { waiters, children, .. } => pending matches Some(p)
                    && p.children@ == children@ && p.waiters@ == waiters@,
                ContextImpl::Done => pending is None,
            },
    {
        let mut previous = ContextImpl::Done;
        core::mem::swap(self, &mut previous);
        match previous {
            ContextImpl::Init { waiters, children, .. } => Some(Pending { children, waiters }),
            ContextImpl::Done => None,
        }
    }

    /// Marks the context done, then each live child that is not done yet, then
    /// finishes each live waiter. The state is replaced by `Done` under the
    /// same lock under which it was found live, so `finish` always hands out
    /// what a live context has to notify.
    ///
    /// It hands back, for each registered child and each registered waiter in
    /// order, what it reached: nothing when the reference no longer upgrades,
    /// else the state that it left the child or waiter in.
    pub fn done(&mut self) -> (reached: Ghost<(Seq<Option<ContextImpl>>, Seq<WaiterReached>)>)
        ensures
            *final(self) is Done,
            match *old(self) {
                ContextImpl::Init { waiters, children, depth } => {
                    &&& reached@.0.len() == children@.len()
                    &&& forall|i: int| 0 <= i < reached@.0.len() ==> #[trigger] done_below_reached(depth, reached@.0[i])
                    &&& reached@.1.len() == waiters@.len()
                    &&& forall|i: int| 0 <= i < reached@.1.len() ==> #[trigger] waiter_finished_through(waiters@[i], reached@.1[i])
                },
                ContextImpl::Done => reached@.0.len() == 0 && reached@.1.len() == 0,
            },
        decreases old(self).rank(), 1int,
    {
        let depth: u64 = match self {
            ContextImpl::Init { depth, .. } => *depth,
            ContextImpl::Done => return Ghost((Seq::empty(), Seq::empty())),
        };
        match self.finish() {
            Some(pending) => {
                let n = vec_len(&pending.children);
                let mut i: usize = 0;
                let ghost mut kids: Seq<Option<ContextImpl>> = Seq::empty();
                while i < n
                    invariant
                        i <= n,
                        n == pending.children@.len(),
                        old(self).rank() == u64::MAX - depth,
                        kids.len() == i,
                        forall|k: int| 0 <= k < i ==> #[trigger] done_below_reached(depth, kids[k]),
                    decreases n - i,
                {
                    match upgrade_context(vec_get(&pending.children, i)) {
                        Some(shared) => {
                            let mut guard = lock(&shared);
                            let child = guard.value();
                            child.done_below(depth);
                            proof {
                                kids = kids.push(Some(*child));
                            }
                        },
                        None => {
                            proof {
                                kids = kids.push(None);
                            }
                        },
                    }
                    i = i + 1;
                }
                let finished = finish_context_waiters(&pending.waiters);
                Ghost((kids, finished@))
            },
            None => Ghost((Seq::empty(), Seq::empty())),
        }
    }

    /// Marks this context done (`done`) when it is live and lies below
    /// `parent_depth`, as a live child of a context at that depth does;
    /// otherwise leaves it as it is. A live child is always deeper than its
    /// parent; the comparison makes that visible where the child's state is
    /// reached through a shared reference.
    pub fn done_below(&mut self, parent_depth: u64)
        ensures
            (*old(self) matches ContextImpl::Init { depth, .. } && depth > parent_depth) ==> *final(self) is Done,
            !(*old(self) matches ContextImpl::Init { depth, .. } && depth > parent_depth) ==> *final(self)
                == *old(self),
        decreases u64::MAX - parent_depth, 0int,
    {
        let deeper = match self {
            ContextImpl::Init { depth, .. } => *depth > parent_depth,
            ContextImpl::Done => false,
        };
        if deeper {
            let _ = self.done();
        }
    }

    /// Registers child `c` while the context is live.
    pub fn add_child(&mut self, c: ContextRef)
        ensures
            match *old(self) {
                ContextImpl::Init { waiters, children, depth } => *final(self) matches ContextImpl::Init {
                    waiters: w,
                    children: ch,
                    depth: d,
                } && w@ == waiters@ && ch@ == children@.push(c) && d == depth,
                ContextImpl::Done => *final(self) is Done,
            },
    {
        match self {
            ContextImpl::Init { children, .. } => children.push(c),
            ContextImpl::Done => {},
        }
    }

    /// Registers waiter `w` while the context is live.
    pub fn add_waiter(&mut self, w: WeakRef<spin::Mutex<WaiterImpl>>)
        ensures
            match *old(self) {
                ContextImpl::Init { waiters, children, depth } => *final(self) matches ContextImpl::Init {
                    waiters: ws,
                    children: ch,
                    depth: d,
                } && ws@ == waiters@.push(w) && ch@ == children@ && d == depth,
                ContextImpl::Done => *final(self) is Done,
            },
    {
        match self {
            ContextImpl::Init { waiters, .. } => waiters.push(w),
            ContextImpl::Done => {},
        }
    }

    /// The state that a new waiter on this context starts in: finished at
    /// once on a context that is done, otherwise not yet polled.
    pub open spec fn waiter_start(self) -> WaiterImpl {
        if self is Done {
            WaiterImpl::Done
        } else {
            WaiterImpl::Init
        }
    }

    /// Makes a new child of this context and registers it while the context
    /// is live (`child_state`, `add_child`).
    pub fn spawn_child(&mut self) -> (c: Context)
        ensures
            c.born().is_child_of(*old(self)),
            match *old(self) {
                ContextImpl::Init { waiters, children, depth } => *final(self) matches ContextImpl::Init {
                    waiters: w,
                    children: ch,
                    depth: d,
                } && w@ == waiters@ && ch@.len() == children@.len() + 1 && ch@.drop_last() == children@
                    && d == depth,
                ContextImpl::Done => *final(self) is Done,
            },
    {
        let child = Context::construct(self.child_state());
        self.add_child(child.weak());
        child
    }

    /// Makes a new waiter on this context, finished at once when the context
    /// is done, and registers it otherwise (`add_waiter`).
    pub fn spawn_waiter(&mut self) -> (w: Waiter)
        ensures
            w.born() == old(self).waiter_start(),
            match *old(self) {
                ContextImpl::Init { waiters, children, depth } => *final(self) matches ContextImpl::Init {
                    waiters: ws,
                    children: ch,
                    depth: d,
                } && ws@.len() == waiters@.len() + 1 && ws@.drop_last() == waiters@
                    && ws@.last().target() == w.shared() && ch@ == children@ && d == depth,
                ContextImpl::Done => *final(self) is Done,
            },
    {
        if self.is_done() {
            return Waiter::done();
        }
        let waiter = Waiter::init();
        self.add_waiter(waiter.weak());
        waiter
    }

    /// The state of a new child.
    pub fn child_state(&self) -> (c: ContextImpl)
        ensures
            c.is_child_of(*self),
    {
        match self {
            ContextImpl::Init { depth, .. } => {
                let d = if *depth < u64::MAX {
                    *depth + 1
                } else {
                    *depth
                };
                ContextImpl::Init { waiters: Vec::new(), children: Vec::new(), depth: d }
            },
            ContextImpl::Done => ContextImpl::Done,
        }
    }
}

/// A context that is done stays done: its children are born done, and it
/// has no depth left to cascade through.
pub proof fn lemma_done_context_is_final(c: ContextImpl, child: ContextImpl)
    requires
        c is Done,
        child.is_child_of(c),
    ensures
        child is Done,
        c.rank() == 0,
{
}

/// A child of a live context is live and, below the largest depth, nearer
/// the deepest depth than its parent, which bounds a cascade of `done`.
pub proof fn lemma_live_child_is_deeper(c: ContextImpl, child: ContextImpl)
    requires
        c is Init,
        child.is_child_of(c),
    ensures
        child is Init,
        c.rank() > 0 ==> child.rank() < c.rank(),
{
}

impl Default for ContextImpl {
    /// A live root context with nothing registered.
    fn default() -> (c: ContextImpl)
        ensures
            c matches ContextImpl::Init { waiters, children, depth }
                && waiters@.len() == 0 && children@.len() == 0 && depth == 0,
    {
        ContextImpl::Init { waiters: Vec::new(), children: Vec::new(), depth: 0 }
    }
}

/// A handle of a context. Clones share the context.
///
/// The context's state is shared behind a lock, so each method is specified
/// by the step that it applies to the locked state (the methods of
/// `ContextImpl`). Besides the shared state, a handle records the state that
/// its context was made with.
#[derive(Clone)]
pub struct Context(Arc<spin::Mutex<ContextImpl>>, Ghost<ContextImpl>);

impl Default for Context {
    /// A new live root context, as `Context::root`.
    fn default() -> (c: Context)
        ensures
            c.born() matches ContextImpl::Init { waiters, children, depth }
                && waiters@.len() == 0 && children@.len() == 0 && depth == 0,
    {
        Context::root()
    }
}

impl Context {
    /// The state that this context was made with.
    pub closed spec fn born(&self) -> ContextImpl {
        self.1@
    }

    /// A new live root context (`ContextImpl::default`).
    pub fn root() -> (c: Context)
        ensures
            c.born() matches ContextImpl::Init { waiters, children, depth }
                && waiters@.len() == 0 && children@.len() == 0 && depth == 0,
    {
        Context::construct(ContextImpl::default())
    }

    /// A new child of this context (`ContextImpl::spawn_child`): made as the
    /// child of the context's state at the time, which is done already when
    /// this context is, and otherwise registered here so that marking this
    /// context done marks the child done.
    pub fn child(&self) -> (c: Context)
        ensures
            exists|parent: ContextImpl| c.born().is_child_of(parent),
    {
        let mut guard = self.inner();
        let inner = guard.value();
        inner.spawn_child()
    }

    /// Marks this context done, and every context below it
    /// (`ContextImpl::done`).
    pub fn done(&self) {
        let mut guard = self.inner();
        let inner = guard.value();
        let _ = inner.done();
    }

    /// Whether this context is done (`ContextImpl::is_done`).
    pub fn is_done(&self) -> bool {
        let mut guard = self.inner();
        let inner = guard.value();
        inner.is_done()
    }

    /// A waiter that finishes when this context is done
    /// (`ContextImpl::spawn_waiter`): finished at once if it is, otherwise
    /// registered here.
    pub fn wait(&self) -> (w: Waiter)
        ensures
            exists|context: ContextImpl| w.born() == context.waiter_start(),
    {
        let mut guard = self.inner();
        let inner = guard.value();
        inner.spawn_waiter()
    }

    /// The context's shared state.
    pub closed spec fn shared(&self) -> spin::Mutex<ContextImpl> {
        *self.0
    }

    fn inner(&self) -> (held: Locked<'_, ContextImpl>)
        ensures
            held.locks() == self.shared(),
    {
        lock(&self.0)
    }

    fn construct(inner: ContextImpl) -> (c: Context)
        ensures
            c.born() == inner,
    {
        let ghost start = inner;
        Context(Arc::new(new_mutex(inner)), Ghost(start))
    }

    fn weak(&self) -> ContextRef {
        downgrade_context(&self.0)
    }
}

} // verus!
