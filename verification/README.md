# diego

Cancellation trees, wait groups and contexts for async tasks, verified with Verus.

- `src/waiter.rs`: the waiter state machine (`State`) and its shared handle (`Waiter`).
- `src/cancel_tree.rs`: `CancelTree`, a tree of cancellation scopes; the locked state of a node is `Inner`, specified through `NodeView`.
- `src/wait_group.rs`: `Group` and `Worker`; the locked state is `Inner`, specified through `GroupView`.
- `src/context.rs`: `Context`, a tree of scopes marked done, with its own waiter.
- `src/sync.rs`: the declarations of `spin::Mutex`, its guard and `Waker`, and the trusted wrappers of the calls into `spin` and `std`.
- `app/lib.rs`: the `Future`s that poll the waiters.

Each handle keeps its state behind a `spin::Mutex`. The verified contracts are
stated on the steps that the handles apply to the locked state; the locked
value itself is shared, so no contract states what it holds when the lock is
taken.

A drop must not unwind, so the wakes made while a node is dropped or a
group's last worker leaves go through `wake_or_abort`: a waker that panics
there aborts the process. Other wakes (`CancelTree::cancel`, `Context::done`,
`State::done`, `WaiterImpl::done`) go through `wake` and may unwind.

Each handle also records, as ghost state, the state that it was made with
(`born`); the steps that make new nodes and waiters state it exactly.
