use actix_async::util::bounded::{Bounded, TryRecvError, TrySendError};
use actix_async::util::unbounded::Unbounded;

#[test]
fn bounded_queue_is_first_in_first_out() {
    let mut queue: Bounded<u32> = Bounded::new(3);
    assert_eq!(queue.capacity(), 3);
    assert_eq!(queue.pop(), Err(TryRecvError::Empty));
    let mut expected = 0;
    let mut next = 0;
    // Many laps around the ring.
    for _ in 0..50 {
        while queue.len() < 3 {
            assert_eq!(queue.push(next), Ok(()));
            next += 1;
        }
        assert_eq!(queue.push(next), Err(TrySendError::Full(next)));
        for _ in 0..2 {
            assert_eq!(queue.pop(), Ok(expected));
            expected += 1;
        }
    }
    assert_eq!(queue.len(), 1);
}

#[test]
fn bounded_queue_of_one() {
    let mut queue: Bounded<u8> = Bounded::new(1);
    for i in 0..9 {
        assert_eq!(queue.push(i), Ok(()));
        assert_eq!(queue.push(i), Err(TrySendError::Full(i)));
        assert_eq!(queue.len(), 1);
        assert_eq!(queue.pop(), Ok(i));
        assert_eq!(queue.len(), 0);
    }
}

#[test]
fn closed_queue_refuses_and_drains() {
    let mut queue: Bounded<u8> = Bounded::new(4);
    assert_eq!(queue.push(1), Ok(()));
    assert_eq!(queue.push(2), Ok(()));
    assert!(!queue.is_closed());
    assert!(queue.close());
    assert!(!queue.close());
    assert!(queue.is_closed());
    assert_eq!(queue.push(3), Err(TrySendError::Closed(3)));
    assert_eq!(queue.len(), 2);
    assert_eq!(queue.pop(), Ok(1));
    assert_eq!(queue.pop(), Ok(2));
    assert_eq!(queue.pop(), Err(TryRecvError::Closed));
}

#[test]
fn full_queue_that_is_closed_says_closed() {
    let mut queue: Bounded<u8> = Bounded::new(2);
    assert_eq!(queue.push(1), Ok(()));
    assert_eq!(queue.push(2), Ok(()));
    queue.close();
    assert_eq!(queue.push(3), Err(TrySendError::Closed(3)));
    assert_eq!(queue.len(), 2);
}

#[test]
fn unbounded_queue_takes_all() {
    let mut queue: Unbounded<u32> = Unbounded::new();
    for i in 0..1000 {
        assert_eq!(queue.push(i), Ok(()));
    }
    assert_eq!(queue.pop(), Ok(0));
    assert!(queue.close());
    assert!(!queue.close());
    assert_eq!(queue.push(1), Err(TrySendError::Closed(1)));
    for i in 1..1000 {
        assert_eq!(queue.pop(), Ok(i));
    }
    assert!(queue.is_closed());
    assert_eq!(queue.pop(), Err(TryRecvError::Closed));
    let mut fresh: Unbounded<u32> = Unbounded::new();
    assert_eq!(fresh.pop(), Err(TryRecvError::Empty));
}

#[test]
fn capacities_that_are_no_power_of_two() {
    for cap in [2, 4, 5, 6, 7, 9, 100] {
        let mut queue: Bounded<usize> = Bounded::new(cap);
        let mut expected = 0;
        let mut next = 0;
        for round in 0..7 * cap {
            for _ in 0..round % (cap + 1) {
                if queue.len() < cap {
                    assert_eq!(queue.push(next), Ok(()));
                    next += 1;
                }
            }
            while queue.len() > round % 2 {
                assert_eq!(queue.pop(), Ok(expected));
                expected += 1;
            }
        }
        assert_eq!(queue.len(), next - expected);
    }
}

#[test]
fn length_is_pushes_less_pops() {
    let mut queue: Bounded<usize> = Bounded::new(3);
    let (mut pushes, mut pops) = (0, 0);
    for i in 0..40usize {
        match i % 7 {
            0 | 2 | 3 | 4 => {
                if queue.push(i).is_ok() {
                    pushes += 1;
                }
            }
            _ => {
                if queue.pop().is_ok() {
                    pops += 1;
                }
            }
        }
        if i == 35 {
            queue.close();
        }
        assert_eq!(queue.len(), pushes - pops);
        assert!(queue.len() <= queue.capacity());
    }
    assert_eq!(queue.capacity(), 3);
}
