use std::sync::atomic::{AtomicUsize, Ordering};
use std::sync::Arc;
use std::task::{Wake, Waker};

use diego::waiter::Waiter;
use diego::CancelTree;

struct WakeCount(AtomicUsize);

impl Wake for WakeCount {
    fn wake(self: Arc<Self>) {
        self.0.fetch_add(1, Ordering::SeqCst);
    }
}

fn counting_waker() -> (Arc<WakeCount>, Waker) {
    let count = Arc::new(WakeCount(AtomicUsize::new(0)));
    (count.clone(), Waker::from(count))
}

fn wakes(count: &Arc<WakeCount>) -> usize {
    count.0.load(Ordering::SeqCst)
}

fn pending(waiter: &Waiter) -> Arc<WakeCount> {
    let (count, waker) = counting_waker();
    assert!(!waiter.poll_ready(&waker));
    count
}

#[test]
fn cancel_tree_multi_waiter() {
    let root = CancelTree::new();
    let child = root.new_child();
    let waiters: Vec<Waiter> = (1..=5).map(|_| child.wait()).collect();
    let counts: Vec<Arc<WakeCount>> = waiters.iter().map(pending).collect();
    root.cancel();
    let (_, waker) = counting_waker();
    for (waiter, count) in waiters.iter().zip(counts.iter()) {
        assert_eq!(wakes(count), 1);
        assert!(waiter.poll_ready(&waker));
    }
    assert!(child.canceled());
}

#[test]
fn cancel_tree_multi_layer() {
    let root = CancelTree::new();
    let child = root.new_child();
    let grandchild = child.new_child();
    let waiter = grandchild.wait();
    let count = pending(&waiter);
    assert!(!grandchild.canceled());
    root.cancel();
    assert_eq!(wakes(&count), 1);
    let (_, waker) = counting_waker();
    assert!(waiter.poll_ready(&waker));
    assert!(child.canceled());
    assert!(grandchild.canceled());
}

#[test]
fn cancel_tree_wait_after_done() {
    let root = CancelTree::root();
    root.cancel();
    let (count, waker) = counting_waker();
    assert!(root.wait().poll_ready(&waker));
    assert_eq!(wakes(&count), 0);
}

#[test]
fn cancel_tree_child_after_done() {
    let root = CancelTree::new();
    root.cancel();
    let child = root.new_child();
    assert!(child.canceled());
    let (_, waker) = counting_waker();
    assert!(child.wait().poll_ready(&waker));
}

#[test]
fn cancel_tree_drop_canceled() {
    let root1 = CancelTree::new();
    let root2 = root1.clone();
    let child = root1.new_child();
    let waiter = child.wait();
    let count = pending(&waiter);
    drop(root1);
    assert!(!child.canceled());
    assert_eq!(wakes(&count), 0);
    drop(root2);
    assert!(child.canceled());
    assert_eq!(wakes(&count), 1);
    let (_, waker) = counting_waker();
    assert!(waiter.poll_ready(&waker));
}

#[test]
fn cancel_tree_cancel_is_idempotent() {
    let root = CancelTree::new();
    assert!(!root.canceled());
    let waiter = root.wait();
    let count = pending(&waiter);
    root.cancel();
    root.cancel();
    assert!(root.canceled());
    assert_eq!(wakes(&count), 1);
}

#[test]
fn cancel_tree_cancel_stays_below() {
    let root = CancelTree::new();
    let child = root.new_child();
    let grandchild = child.new_child();
    child.cancel();
    assert!(!root.canceled());
    assert!(child.canceled());
    assert!(grandchild.canceled());
}

#[test]
fn cancel_tree_dropped_child_cancels_its_subtree() {
    let root = CancelTree::new();
    let child = root.new_child();
    let grandchild = child.new_child();
    drop(child);
    assert!(grandchild.canceled());
    assert!(!root.canceled());
}

#[test]
fn cancel_tree_latest_poll_is_woken() {
    let root = CancelTree::new();
    let waiter = root.wait();
    let first = pending(&waiter);
    let second = pending(&waiter);
    root.cancel();
    assert_eq!(wakes(&first), 0);
    assert_eq!(wakes(&second), 1);
}

#[test]
fn cancel_tree_dropped_waiter_is_skipped() {
    let root = CancelTree::new();
    let kept = root.wait();
    let count = pending(&kept);
    let gone = root.wait();
    let _ = pending(&gone);
    drop(gone);
    root.cancel();
    assert_eq!(wakes(&count), 1);
}
