use std::sync::atomic::{AtomicUsize, Ordering};
use std::sync::Arc;
use std::task::{Wake, Waker};

use diego::context::{Context, Waiter};

struct Hits(AtomicUsize);

impl Wake for Hits {
    fn wake(self: Arc<Self>) {
        self.0.fetch_add(1, Ordering::SeqCst);
    }
}

fn make_waker() -> (Arc<Hits>, Waker) {
    let hits = Arc::new(Hits(AtomicUsize::new(0)));
    (hits.clone(), Waker::from(hits))
}

fn is_ready(waiter: &Waiter) -> bool {
    let (_, w) = make_waker();
    waiter.poll_ready(&w)
}

#[test]
fn context_multi_waiter() {
    let root = Context::root();
    let child = root.child();
    let waiters: Vec<Waiter> = (1..=5).map(|_| child.wait()).collect();
    let (hits, w) = make_waker();
    for waiter in &waiters {
        assert!(!waiter.poll_ready(&w));
    }
    root.done();
    assert_eq!(hits.0.load(Ordering::SeqCst), 5);
    for waiter in &waiters {
        assert!(is_ready(waiter));
    }
}

#[test]
fn context_multi_layer() {
    let root = Context::root();
    let child = root.child();
    let grandchild = child.child();
    let waiter = grandchild.wait();
    assert!(!is_ready(&waiter));
    root.done();
    assert!(is_ready(&waiter));
    assert!(child.is_done());
    assert!(grandchild.is_done());
}

#[test]
fn context_wait_after_done() {
    let root = Context::root();
    root.done();
    assert!(root.is_done());
    assert!(is_ready(&root.wait()));
}

#[test]
fn context_child_after_done() {
    let root = Context::root();
    root.done();
    let child = root.child();
    assert!(child.is_done());
    assert!(is_ready(&child.wait()));
}

#[test]
fn context_done_stays_below() {
    let root = Context::default();
    let child = root.child();
    child.done();
    assert!(!root.is_done());
    assert!(child.is_done());
    root.done();
    assert!(root.is_done());
}

#[test]
fn context_waiter_constructors() {
    assert!(!is_ready(&Waiter::init()));
    assert!(is_ready(&Waiter::done()));
}
