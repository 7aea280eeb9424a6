//! A tree of cancellation scopes. Cancelling a node cancels every node below
//! it that is still alive and finishes every waiter registered on them; a node
//! whose last handle is dropped is cancelled too.
use crate::sync::{lock, Locked, new_mutex, take_vec, vec_get, vec_len, WeakRef};
use crate::waiter::{finish_waiters, finished_through, Reached, State, Waiter};
use std::sync::Arc;
use vstd::prelude::*;

verus! {

/// A weak reference to a node (`std::sync::Weak<spin::Mutex<Inner>>`), as a
/// parent holds its children. It is a type of its own because a node holds
/// such references to nodes, and `WeakRef` cannot be declared to accept that.
#[verifier::external_body]
pub struct ChildRef {
    weak: std::sync::Weak<spin::Mutex<Inner>>,
}

/// `std::sync::Arc::downgrade` on a node.
#[verifier::external_body]
fn downgrade_child(a: &Arc<spin::Mutex<Inner>>) -> ChildRef {
    ChildRef { weak: Arc::downgrade(a) }
}

/// `std::sync::Weak::upgrade` on a node: a strong reference while the node is
/// alive. Which comes back depends on other threads, so nothing is stated.
#[verifier::external_body]
fn upgrade_child(c: &ChildRef) -> Option<Arc<spin::Mutex<Inner>>>
    opens_invariants none
    no_unwind
{
    c.weak.upgrade()
}

/// What the verified code sees of a node's locked state.
pub struct NodeView {
    pub canceled: bool,
    /// Distance from the root of the tree that the node was made in.
    pub depth: u64,
    pub waiters: Seq<WeakRef<spin::Mutex<State>>>,
    pub children: Seq<ChildRef>,
}

impl NodeView {
    /// A cancelled node has nothing registered; every node's state keeps this.
    pub open spec fn settled(self) -> bool {
        self.canceled ==> self.waiters.len() == 0 && self.children.len() == 0
    }

    /// The node after a cancellation: cancelled, with nothing left to notify.
    /// A node that is cancelled already stays as it is.
    pub open spec fn cancelled(self) -> NodeView {
        if self.canceled {
            self
        } else {
            NodeView { canceled: true, depth: self.depth, waiters: Seq::empty(), children: Seq::empty() }
        }
    }

    /// What a cancellation of this node has to notify: its children and its
    /// waiters, or nothing when it is cancelled already.
    pub open spec fn pending(self) -> (Seq<ChildRef>, Seq<WeakRef<spin::Mutex<State>>>) {
        if self.canceled {
            (Seq::empty(), Seq::empty())
        } else {
            (self.children, self.waiters)
        }
    }

    /// The depth of a child: one more than the parent's (held at the largest
    /// `u64`, a depth that no chain of live nodes can reach).
    pub open spec fn child_depth(self) -> u64 {
        if self.depth < u64::MAX {
            (self.depth + 1) as u64
        } else {
            self.depth
        }
    }

    /// The state of a new child of this node: cancelled exactly when this node
    /// is, one level deeper, with nothing registered.
    pub open spec fn child(self) -> NodeView {
        NodeView { canceled: self.canceled, depth: self.child_depth(), waiters: Seq::empty(), children: Seq::empty() }
    }

    /// The node after registering child `c`: a cancelled node registers nothing.
    pub open spec fn with_child(self, c: ChildRef) -> NodeView {
        if self.canceled {
            self
        } else {
            NodeView { children: self.children.push(c), ..self }
        }
    }

    /// The node after registering waiter `w`: a cancelled node registers nothing.
    pub open spec fn with_waiter(self, w: WeakRef<spin::Mutex<State>>) -> NodeView {
        if self.canceled {
            self
        } else {
            NodeView { waiters: self.waiters.push(w), ..self }
        }
    }

    /// The state that a new waiter on this node starts in: finished at once on
    /// a cancelled node, otherwise not yet polled.
    pub open spec fn waiter_start(self) -> State {
        if self.canceled {
            State::Done
        } else {
            State::Init
        }
    }
}

/// Cancelling is idempotent: a cancelled node is cancelled, and cancelling it
/// again changes nothing and notifies nothing.
pub proof fn lemma_cancel_is_idempotent(v: NodeView)
    ensures
        v.cancelled().canceled,
        v.cancelled().cancelled() == v.cancelled(),
        v.cancelled().pending() == (Seq::<ChildRef>::empty(), Seq::<WeakRef<spin::Mutex<State>>>::empty()),
        v.cancelled().depth == v.depth,
{
}

/// A waiter or child registered on a live node is among what cancelling the
/// node notifies.
pub proof fn lemma_cancel_notifies_registered(v: NodeView, w: WeakRef<spin::Mutex<State>>, c: ChildRef)
    requires
        !v.canceled,
    ensures
        v.with_waiter(w).pending().1.contains(w),
        v.with_child(c).pending().0.contains(c),
        v.with_waiter(w).with_child(c).pending().1.contains(w),
        v.with_child(c).with_waiter(w).pending().0.contains(c),
{
    assert(v.with_waiter(w).waiters.last() == w);
    assert(v.with_child(c).children.last() == c);
}

/// On a cancelled node a wait is over at once, a child is born cancelled, and
/// nothing gets registered.
pub proof fn lemma_canceled_node_is_final(v: NodeView, w: WeakRef<spin::Mutex<State>>, c: ChildRef)
    requires
        v.canceled,
    ensures
        v.waiter_start() == State::Done,
        v.child().canceled,
        v.with_waiter(w) == v,
        v.with_child(c) == v,
{
}

/// A child of a live node is live and, below the largest depth, deeper than
/// its parent.
pub proof fn lemma_live_child(v: NodeView)
    requires
        !v.canceled,
    ensures
        !v.child().canceled,
        v.waiter_start() == State::Init,
        v.depth < u64::MAX ==> v.child().depth > v.depth,
{
}

/// Every step on a node keeps it settled: a cancelled node has nothing
/// registered, whatever is done to it.
pub proof fn lemma_steps_keep_settled(v: NodeView, w: WeakRef<spin::Mutex<State>>, c: ChildRef)
    requires
        v.settled(),
    ensures
        v.cancelled().settled(),
        v.with_waiter(w).settled(),
        v.with_child(c).settled(),
        v.child().settled(),
{
}

/// A child reached by a cancellation of a node at `parent_depth` was left
/// cancelled, unless it did not lie below the node (which a child always
/// does).
pub open spec fn cancelled_below(parent_depth: u64, reached: Option<NodeView>) -> bool {
    reached matches Some(v) ==> v.canceled || v.depth <= parent_depth
}

/// The locked state of a node.
pub struct Inner {
    waiters: Vec<WeakRef<spin::Mutex<State>>>,
    children: Vec<ChildRef>,
    canceled: bool,
    depth: u64,
}

impl View for Inner {
    type V = NodeView;

    closed spec fn view(&self) -> NodeView {
        NodeView { canceled: self.canceled, depth: self.depth, waiters: self.waiters@, children: self.children@ }
    }
}

impl Inner {
    /// A cancelled node has nothing left to notify.
    #[verifier::type_invariant]
    spec fn nothing_pending_once_canceled(self) -> bool {
        self.canceled ==> self.waiters@.len() == 0 && self.children@.len() == 0
    }

    /// A node with nothing registered.
    pub fn new(canceled: bool, depth: u64) -> (node: Inner)
        ensures
            node@ == (NodeView { canceled, depth, waiters: Seq::empty(), children: Seq::empty() }),
            node@.settled(),
    {
        Inner { waiters: Vec::new(), children: Vec::new(), canceled, depth }
    }

    pub fn is_canceled(&self) -> (canceled: bool)
        ensures
            canceled == self@.canceled,
            self@.settled(),
    {
        proof {
            use_type_invariant(self);
        }
        self.canceled
    }

    /// Marks the node cancelled and hands out what it has to notify.
    pub fn take_pending(&mut self) -> (pending: (Vec<ChildRef>, Vec<WeakRef<spin::Mutex<State>>>))
        ensures
            final(self)@ == old(self)@.cancelled(),
            (pending.0@, pending.1@) == old(self)@.pending(),
            final(self)@.settled(),
        opens_invariants none
        no_unwind
    {
        proof {
            use_type_invariant(&*self);
            assert(self.canceled ==> self.children@ =~= Seq::empty() && self.waiters@ =~= Seq::empty());
        }
        let children = take_vec(&mut self.children);
        let waiters = take_vec(&mut self.waiters);
        self.canceled = true;
        (children, waiters)
    }

    /// Cancels the node: cancels each child that is still alive, then finishes
    /// each waiter that is still alive. A cancelled node is left as it is.
    /// It also runs when a node is dropped (`dropping`), which must not
    /// unwind; there a waker that panics while being woken aborts the process
    /// (`finish_waiter`).
    ///
    /// It hands back, for each registered child and each registered waiter in
    /// order, what it reached: nothing when the reference no longer upgrades,
    /// else the state that it left the child or waiter in.
    pub fn cancel(&mut self, dropping: bool) -> (reached: Ghost<(Seq<Option<NodeView>>, Seq<Reached>)>)
        ensures
            final(self)@ == old(self)@.cancelled(),
            final(self)@.settled(),
            reached@.0.len() == old(self)@.pending().0.len(),
            forall|i: int| 0 <= i < reached@.0.len() ==> #[trigger] cancelled_below(old(self)@.depth, reached@.0[i]),
            reached@.1.len() == old(self)@.pending().1.len(),
            forall|i: int| 0 <= i < reached@.1.len() ==> #[trigger] finished_through(old(self)@.pending().1[i], reached@.1[i]),
        decreases u64::MAX - old(self)@.depth, 1int,
        opens_invariants none
        no_unwind when dropping
    {
        let depth = self.depth;
        let (children, waiters) = self.take_pending();
        let n = vec_len(&children);
        let mut i: usize = 0;
        let ghost mut kids: Seq<Option<NodeView>> = Seq::empty();
        while i < n
            invariant
                i <= n,
                n == children@.len(),
                depth == old(self)@.depth,
                kids.len() == i,
                forall|k: int| 0 <= k < i ==> #[trigger] cancelled_below(depth, kids[k]),
            decreases n - i,
        {
            match upgrade_child(vec_get(&children, i)) {
                Some(shared) => {
                    let mut guard = lock(&shared);
                    let child = guard.value();
                    child.cancel_below(depth, dropping);
                    proof {
                        kids = kids.push(Some((*child)@));
                    }
                },
                None => {
                    proof {
                        kids = kids.push(None);
                    }
                },
            }
            i = i + 1;
        }
        let finished = finish_waiters(&waiters, dropping);
        Ghost((kids, finished@))
    }

    /// Cancels this node (`cancel`) when it lies below `parent_depth`, as a
    /// child of a node at that depth does; otherwise leaves it as it is. A
    /// child is always deeper than its parent; the comparison makes that
    /// visible where the child's state is reached through a shared reference.
    pub fn cancel_below(&mut self, parent_depth: u64, dropping: bool)
        ensures
            old(self)@.depth > parent_depth ==> final(self)@ == old(self)@.cancelled(),
            old(self)@.depth <= parent_depth ==> final(self)@ == old(self)@,
            final(self)@.settled(),
        decreases u64::MAX - parent_depth, 0int,
        opens_invariants none
        no_unwind when dropping
    {
        proof {
            use_type_invariant(&*self);
        }
        if self.depth > parent_depth {
            let _ = self.cancel(dropping);
        }
    }

    /// The state of a new child of this node.
    pub fn child_node(&self) -> (child: Inner)
        ensures
            child@ == self@.child(),
            child@.settled(),
    {
        let depth = if self.depth < u64::MAX {
            self.depth + 1
        } else {
            self.depth
        };
        Inner::new(self.canceled, depth)
    }

    /// Registers child `c`, unless the node is cancelled.
    pub fn add_child(&mut self, c: ChildRef)
        ensures
            final(self)@ == old(self)@.with_child(c),
            final(self)@.settled(),
    {
        proof {
            use_type_invariant(&*self);
        }
        if !self.canceled {
            let mut children = take_vec(&mut self.children);
            children.push(c);
            self.children = children;
        }
    }

    /// The state that a new waiter on this node starts in.
    pub fn waiter_start(&self) -> (s: State)
        ensures
            s == self@.waiter_start(),
    {
        if self.canceled {
            State::Done
        } else {
            State::Init
        }
    }

    /// Makes a new child of this node and registers it, unless the node is
    /// cancelled (`child_node`, `add_child`).
    pub fn spawn_child(&mut self) -> (c: CancelTree)
        ensures
            c.born() == old(self)@.child(),
            old(self)@.settled(),
            final(self)@.settled(),
            old(self)@.canceled ==> final(self)@ == old(self)@,
            !old(self)@.canceled ==> {
                &&& final(self)@.canceled == old(self)@.canceled
                &&& final(self)@.depth == old(self)@.depth
                &&& final(self)@.waiters == old(self)@.waiters
                &&& final(self)@.children.len() == old(self)@.children.len() + 1
                &&& final(self)@.children.drop_last() == old(self)@.children
            },
    {
        proof {
            use_type_invariant(&*self);
        }
        let child = CancelTree::construct(self.child_node());
        self.add_child(child.weak());
        child
    }

    /// Makes a new waiter on this node, finished at once when the node is
    /// cancelled, and registers it otherwise (`waiter_start`, `add_waiter`).
    pub fn spawn_waiter(&mut self) -> (w: Waiter)
        ensures
            w.born() == old(self)@.waiter_start(),
            old(self)@.settled(),
            final(self)@.settled(),
            old(self)@.canceled ==> final(self)@ == old(self)@,
            !old(self)@.canceled ==> {
                &&& final(self)@.canceled == old(self)@.canceled
                &&& final(self)@.depth == old(self)@.depth
                &&& final(self)@.children == old(self)@.children
                &&& final(self)@.waiters.len() == old(self)@.waiters.len() + 1
                &&& final(self)@.waiters.drop_last() == old(self)@.waiters
                &&& final(self)@.waiters.last().target() == w.shared()
            },
    {
        proof {
            use_type_invariant(&*self);
        }
        let waiter = Waiter::construct(self.waiter_start());
        self.add_waiter(waiter.weak());
        waiter
    }

    /// Registers waiter `w`, unless the node is cancelled.
    pub fn add_waiter(&mut self, w: WeakRef<spin::Mutex<State>>)
        ensures
            final(self)@ == old(self)@.with_waiter(w),
            final(self)@.settled(),
    {
        proof {
            use_type_invariant(&*self);
        }
        if !self.canceled {
            let mut waiters = take_vec(&mut self.waiters);
            waiters.push(w);
            self.waiters = waiters;
        }
    }
}

impl Drop for Inner {
    /// A node whose last handle goes is cancelled. A drop must not unwind, so
    /// a waker that panics while being woken here aborts the process.
    fn drop(&mut self)
        opens_invariants none
        no_unwind
    {
        self.cancel(true);
    }
}

/// A handle of a node of a cancellation tree. Clones share the node; when the
/// last handle of a node goes, the node is cancelled.
///
/// The node's state is shared behind a lock, so each method is specified by
/// the step that it applies to the locked state (the methods of `Inner`).
///
/// Besides the shared state, a handle records the state that its node was
/// made with.
#[derive(Clone)]
pub struct CancelTree(Arc<spin::Mutex<Inner>>, Ghost<NodeView>);

impl CancelTree {
    /// The state that this node was made with.
    pub closed spec fn born(&self) -> NodeView {
        self.1@
    }

    /// The root of a new tree: not cancelled, nothing registered.
    pub fn root() -> (t: CancelTree)
        ensures
            t.born() == (NodeView { canceled: false, depth: 0, waiters: Seq::empty(), children: Seq::empty() }),
    {
        CancelTree::construct(Inner::new(false, 0))
    }

    /// The root of a new tree, as `root`.
    pub fn new() -> (t: CancelTree)
        ensures
            t.born() == (NodeView { canceled: false, depth: 0, waiters: Seq::empty(), children: Seq::empty() }),
    {
        CancelTree::root()
    }

    /// A new child of this node (`Inner::spawn_child`): made as the child of
    /// the node's state at the time, which is cancelled already when this node
    /// is, and otherwise registered here so that cancelling this node cancels
    /// it.
    pub fn new_child(&self) -> (c: CancelTree)
        ensures
            exists|parent: NodeView| parent.settled() && c.born() == parent.child(),
    {
        let mut guard = self.inner();
        let inner = guard.value();
        inner.spawn_child()
    }

    /// Cancels this node and everything below it (`Inner::cancel`).
    pub fn cancel(&self) {
        let mut guard = self.inner();
        let inner = guard.value();
        let _ = inner.cancel(false);
    }

    /// Whether this node has been cancelled (`Inner::is_canceled`).
    pub fn canceled(&self) -> bool {
        let mut guard = self.inner();
        let inner = guard.value();
        inner.is_canceled()
    }

    /// A waiter that finishes when this node is cancelled
    /// (`Inner::spawn_waiter`): finished at once if it is, otherwise
    /// registered here.
    pub fn wait(&self) -> (w: Waiter)
        ensures
            exists|node: NodeView| w.born() == node.waiter_start(),
    {
        let mut guard = self.inner();
        let inner = guard.value();
        inner.spawn_waiter()
    }

    /// The node's shared state.
    pub closed spec fn shared(&self) -> spin::Mutex<Inner> {
        *self.0
    }

    fn inner(&self) -> (held: Locked<'_, Inner>)
        ensures
            held.locks() == self.shared(),
    {
        lock(&self.0)
    }

    fn construct(inner: Inner) -> (t: CancelTree)
        ensures
            t.born() == inner@,
    {
        let ghost start = inner@;
        CancelTree(Arc::new(new_mutex(inner)), Ghost(start))
    }

    fn weak(&self) -> ChildRef {
        downgrade_child(&self.0)
    }
}

} // verus!
