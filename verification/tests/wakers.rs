use std::collections::VecDeque;

use actix_async::waker::{ActorWaker, WakeQueue};

#[test]
fn woken_tasks_are_found_in_order() {
    let queue = WakeQueue::new();
    let shared = queue.clone();
    assert_eq!(queue.try_pop(), None);
    shared.enqueue(3);
    queue.enqueue(1);
    shared.enqueue(2);
    assert_eq!(queue.try_pop(), Some(3));
    assert_eq!(shared.try_pop(), Some(1));
    assert_eq!(queue.try_pop(), Some(2));
    assert_eq!(shared.try_pop(), None);
}

#[test]
fn queue_behind_a_lock() {
    let lock = spin::Mutex::new(VecDeque::new());
    let mut guard = lock.lock();
    WakeQueue::push(&mut guard, 5);
    WakeQueue::push(&mut guard, 6);
    assert_eq!(WakeQueue::pop(&mut guard), Some(5));
    assert_eq!(WakeQueue::pop(&mut guard), Some(6));
    assert_eq!(WakeQueue::pop(&mut guard), None);
}

#[test]
fn a_lock_that_was_not_had_gives_no_index() {
    let lock = spin::Mutex::new(VecDeque::from(vec![8usize, 9]));
    let held = lock.lock();
    assert_eq!(WakeQueue::pop_front(lock.try_lock()), None);
    drop(held);
    assert_eq!(WakeQueue::pop_front(lock.try_lock()), Some(8));
    assert_eq!(WakeQueue::pop_front(lock.try_lock()), Some(9));
    assert_eq!(WakeQueue::pop_front(lock.try_lock()), None);
}

#[test]
fn waker_of_a_task_names_the_task() {
    let queue = WakeQueue::new();
    let waker = ActorWaker::new(&queue, 7, "actor");
    assert_eq!(*waker.wake_by_ref(), "actor");
    assert_eq!(waker.wake(), "actor");
    assert_eq!(queue.try_pop(), Some(7));
    assert_eq!(queue.try_pop(), Some(7));
    assert_eq!(queue.try_pop(), None);
}
