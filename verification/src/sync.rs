//! Declarations of the outside types that the handles are built from, and the
//! trusted wrappers of the outside calls that the verified code makes.
//!
//! The contents of a `spin::Mutex` are shared, mutable state: a value read
//! under the lock may have been written by another holder of the same mutex,
//! so no wrapper here states what a locked value holds. The verified code
//! specifies what it does to the locked value, whatever that value is.
use vstd::prelude::*;

verus! {

#[verifier::external_type_specification]
#[verifier::external_body]
#[verifier::reject_recursive_types(T)]
#[verifier::reject_recursive_types(R)]
pub struct ExMutex<T: ?Sized, R>(spin::mutex::Mutex<T, R>);

#[verifier::external_type_specification]
#[verifier::external_body]
pub struct ExSpin(spin::relax::Spin);

#[verifier::external_type_specification]
#[verifier::external_body]
#[verifier::reject_recursive_types(T)]
pub struct ExMutexGuard<'a, T: 'a + ?Sized>(spin::mutex::MutexGuard<'a, T>);

#[verifier::external_type_specification]
#[verifier::external_body]
pub struct ExWaker(std::task::Waker);

/// A weak reference to a shared value (`std::sync::Weak`).
///
/// `std::sync::Weak` carries an allocator parameter that cannot be declared
/// without an unstable feature, so it is held here in a private field; the
/// only ways to make or use one are `downgrade_cell`, `upgrade` and
/// `strong_count`.
#[verifier::external_body]
#[verifier::reject_recursive_types(T)]
pub struct WeakCell<T> {
    weak: std::sync::Weak<T>,
}

/// A weak reference, with the shared value that it was made from.
#[verifier::reject_recursive_types(T)]
pub struct WeakRef<T> {
    cell: WeakCell<T>,
    target: Ghost<std::sync::Arc<T>>,
}

impl<T> WeakRef<T> {
    /// The shared value that this reference was made from.
    pub closed spec fn target(&self) -> T {
        *self.target@
    }
}

/// `spin::Mutex::new`: a new unlocked mutex around `value`. Nothing is stated
/// of the contents, which later holders of the lock may change.
#[verifier::external_body]
pub(crate) fn new_mutex<T>(value: T) -> spin::Mutex<T> {
    spin::Mutex::new(value)
}

/// `spin::Mutex::lock`: spins until the lock is free and takes it. It does not
/// panic; it does not return while the calling thread itself holds the lock,
/// which the callers here never do.
#[verifier::external_body]
fn acquire<T>(m: &spin::Mutex<T>) -> spin::MutexGuard<'_, T>
    opens_invariants none
    no_unwind
{
    m.lock()
}

/// A held lock: the guard, with the mutex that it locks.
#[verifier::reject_recursive_types(T)]
pub struct Locked<'a, T> {
    guard: spin::MutexGuard<'a, T>,
    mutex: Ghost<spin::Mutex<T>>,
}

impl<'a, T> Locked<'a, T> {
    /// The mutex that this lock holds.
    pub closed spec fn locks(&self) -> spin::Mutex<T> {
        self.mutex@
    }

    /// The locked value, for as long as the lock is held.
    pub fn value(&mut self) -> &mut T
        opens_invariants none
        no_unwind
    {
        guard_mut(&mut self.guard)
    }
}

/// Takes the lock of `m`.
pub(crate) fn lock<T>(m: &spin::Mutex<T>) -> (held: Locked<'_, T>)
    ensures
        held.locks() == *m,
    opens_invariants none
    no_unwind
{
    let ghost mutex: spin::Mutex<T> = *m;
    Locked { guard: acquire(m), mutex: Ghost(mutex) }
}

/// `DerefMut::deref_mut` of `spin::MutexGuard`: the locked value, for as long
/// as the guard is held. Nothing is stated of what it holds.
#[verifier::external_body]
fn guard_mut<'a, 'b, T>(g: &'b mut spin::MutexGuard<'a, T>) -> &'b mut T
    opens_invariants none
    no_unwind
{
    &mut *g
}

/// `std::sync::Arc::downgrade`: a weak reference to the value of `a`.
#[verifier::external_body]
fn downgrade_cell<T>(a: &std::sync::Arc<T>) -> WeakCell<T> {
    WeakCell { weak: std::sync::Arc::downgrade(a) }
}

/// A weak reference to the value of `a`.
pub(crate) fn downgrade<T>(a: &std::sync::Arc<T>) -> (w: WeakRef<T>)
    ensures
        w.target() == **a,
{
    let ghost target: std::sync::Arc<T> = *a;
    WeakRef { cell: downgrade_cell(a), target: Ghost(target) }
}

/// `std::sync::Weak::upgrade`: a strong reference to the value that the weak
/// reference was made from, if it is still alive; `None` once every strong
/// reference has been dropped. Which of the two comes back depends on other
/// threads; what is stated is that a strong reference is to that value.
#[verifier::external_body]
pub(crate) fn upgrade<T>(w: &WeakRef<T>) -> (shared: Option<std::sync::Arc<T>>)
    ensures
        shared matches Some(a) ==> *a == w.target(),
    opens_invariants none
    no_unwind
{
    w.cell.weak.upgrade()
}

/// `std::sync::Weak::strong_count`: how many strong references are alive now.
/// It depends on other threads, so nothing is stated of it.
#[verifier::external_body]
pub(crate) fn strong_count<T>(w: &WeakRef<T>) -> usize {
    w.cell.weak.strong_count()
}

/// `std::task::Waker::wake`: tells the executor to poll the task again. The
/// waker's own code runs, and it may panic; nothing is claimed of that.
#[verifier::external_body]
pub(crate) fn wake(w: std::task::Waker)
    opens_invariants none
{
    w.wake()
}

/// Aborts the process when it is dropped. `wake_or_abort` makes one before
/// it wakes and forgets it once the wake has returned, so it is dropped only
/// when the wake unwinds.
struct AbortOnUnwind;

impl Drop for AbortOnUnwind {
    /// `std::alloc::handle_alloc_error`, which never returns; with std linked
    /// its default behaviour prints a message and aborts the process. (Only
    /// an unstable compiler option makes it panic instead; the guard is
    /// dropped only while a panic unwinds, where a second panic aborts too.)
    /// So this drop never unwinds.
    #[verifier::external_body]
    fn drop(&mut self)
        opens_invariants none
        no_unwind
    {
        std::alloc::handle_alloc_error(std::alloc::Layout::new::<AbortOnUnwind>())
    }
}

/// `std::task::Waker::wake`, for the code that runs while a shared state is
/// dropped and must not unwind. If the waker's own code panics, the process
/// aborts instead of unwinding: the guard made before the call is dropped
/// during the unwind, and dropping it aborts.
#[verifier::external_body]
pub(crate) fn wake_or_abort(w: std::task::Waker)
    opens_invariants none
    no_unwind
{
    let guard = AbortOnUnwind;
    w.wake();
    core::mem::forget(guard);
}

/// `Clone::clone` of `std::task::Waker`: a waker for the same task. What is
/// stated is only that the result is a clone of `w` (what `Waker::clone`
/// returns for it), as a waker is opaque here.
#[verifier::external_body]
pub(crate) fn clone_waker(w: &std::task::Waker) -> (c: std::task::Waker)
    ensures
        cloned(*w, c),
{
    w.clone()
}

/// `std::mem::take` on a vector: hands out its items, in order, and leaves it
/// empty. Taking from a vector replaces it with `Vec::new()`, which allocates
/// nothing and does not panic.
#[verifier::external_body]
pub(crate) fn take_vec<T>(v: &mut Vec<T>) -> (taken: Vec<T>)
    ensures
        taken@ == old(v)@,
        final(v)@ == Seq::<T>::empty(),
    opens_invariants none
    no_unwind
{
    std::mem::take(v)
}

/// `Vec::len`. vstd specifies it, but not as opening no invariants, which
/// `Drop` asks of everything that it calls; this wrapper states the same length.
#[verifier::external_body]
pub(crate) fn vec_len<T>(v: &Vec<T>) -> (n: usize)
    ensures
        n == v@.len(),
    opens_invariants none
    no_unwind
{
    v.len()
}

/// Indexing a vector (`v[i]`) within bounds. vstd specifies it, but not as
/// opening no invariants, which `Drop` asks of everything that it calls.
#[verifier::external_body]
pub(crate) fn vec_get<T>(v: &Vec<T>, i: usize) -> (item: &T)
    requires
        i < v@.len(),
    ensures
        *item == v@[i as int],
    opens_invariants none
    no_unwind
{
    &v[i]
}

} // verus!
