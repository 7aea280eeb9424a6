use std::sync::atomic::{AtomicUsize, Ordering};
use std::sync::Arc;
use std::task::{Wake, Waker};

use diego::waiter::Waiter;
use diego::Group;

struct Wakes(AtomicUsize);

impl Wake for Wakes {
    fn wake(self: Arc<Self>) {
        self.0.fetch_add(1, Ordering::SeqCst);
    }
}

fn waker() -> (Arc<Wakes>, Waker) {
    let count = Arc::new(Wakes(AtomicUsize::new(0)));
    (count.clone(), Waker::from(count))
}

fn woken(count: &Arc<Wakes>) -> usize {
    count.0.load(Ordering::SeqCst)
}

fn ready(waiter: &Waiter) -> bool {
    let (_, w) = waker();
    waiter.poll_ready(&w)
}

#[test]
fn wait_group_basic() {
    let group = Group::new();
    let worker1 = group.worker();
    let worker2 = group.worker();
    let waiter = group.wait();
    let (count, w) = waker();
    assert!(!waiter.poll_ready(&w));
    drop(worker1);
    assert_eq!(woken(&count), 0);
    assert!(!ready(&waiter));
    drop(worker2);
    assert!(ready(&waiter));
}

#[test]
fn wait_group_wakes_once_when_last_worker_leaves() {
    let group = Group::new();
    let worker1 = group.worker();
    let worker2 = group.worker();
    let waiter = group.wait();
    let (count, w) = waker();
    assert!(!waiter.poll_ready(&w));
    drop(worker2);
    assert_eq!(woken(&count), 0);
    drop(worker1);
    assert_eq!(woken(&count), 1);
}

#[test]
fn wait_group_wait_nothing() {
    let group = Group::new();
    assert!(ready(&group.wait()));
}

#[test]
fn wait_group_default_has_no_workers() {
    let group = Group::default();
    assert!(ready(&group.wait()));
}

#[test]
fn wait_group_wait_after_done() {
    let group = Group::new();
    assert!(ready(&group.wait()));
    let worker = group.worker();
    let waiter = group.wait();
    assert!(!ready(&waiter));
    drop(worker);
    assert!(ready(&waiter));
}

#[test]
fn wait_group_wait_and_wait() {
    let group = Group::new();
    let worker = group.worker();
    let first = group.wait();
    assert!(!ready(&first));
    drop(worker);
    assert!(ready(&first));
    let worker = group.worker();
    let second = group.wait();
    assert!(!ready(&second));
    drop(worker);
    assert!(ready(&second));
}

#[test]
fn wait_group_concurrency_wait() {
    let group1 = Group::new();
    let worker = group1.worker();
    let group2 = group1.clone();
    let waiter1 = group1.wait();
    let waiter2 = group2.wait();
    let (count1, w1) = waker();
    let (count2, w2) = waker();
    assert!(!waiter1.poll_ready(&w1));
    assert!(!waiter2.poll_ready(&w2));
    drop(worker);
    assert_eq!(woken(&count1), 1);
    assert_eq!(woken(&count2), 1);
    assert!(ready(&waiter1));
    assert!(ready(&waiter2));
}

#[test]
fn wait_group_cloned_worker_counts() {
    let group = Group::new();
    let worker = group.worker();
    let copy = worker.clone();
    let waiter = group.wait();
    drop(worker);
    assert!(!ready(&waiter));
    drop(copy);
    assert!(ready(&waiter));
}

#[test]
fn wait_group_dropped_waiters_are_pruned() {
    let group = Group::new();
    let worker = group.worker();
    for _ in 0..3 {
        drop(group.wait());
    }
    let waiter = group.wait();
    let (count, w) = waker();
    assert!(!waiter.poll_ready(&w));
    drop(worker);
    assert_eq!(woken(&count), 1);
}
