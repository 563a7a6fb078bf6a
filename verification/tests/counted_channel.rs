use actix_async::error::ActixAsyncError;
use actix_async::util::bounded::{TryRecvError, TrySendError};
use actix_async::util::channel::channel;
use actix_async::util::futures::Poll;

#[test]
fn waiting_senders_keep_the_limit() {
    let (mut ch, tx, mut rx) = channel::<u32, u8>(2);
    let mut woken = Vec::new();
    let mut a = tx.send(1);
    let mut b = tx.send(2);
    let mut c = tx.send(3);
    assert!(a.poll(&mut ch, 1, false, &mut woken) == Poll::Ready(Ok(())));
    assert!(b.poll(&mut ch, 2, false, &mut woken) == Poll::Ready(Ok(())));
    assert!(c.poll(&mut ch, 3, false, &mut woken) == Poll::Pending);
    assert!(c.poll(&mut ch, 3, true, &mut woken) == Poll::Pending);
    assert_eq!(rx.poll_next(&mut ch, 9, false, &mut woken), Poll::Ready(Some(1)));
    assert_eq!(woken, vec![3]);
    assert!(c.poll(&mut ch, 3, true, &mut woken) == Poll::Ready(Ok(())));
    assert_eq!(rx.try_recv(&mut ch, &mut woken), Ok(2));
    assert_eq!(rx.try_recv(&mut ch, &mut woken), Ok(3));
    assert_eq!(rx.try_recv(&mut ch, &mut woken), Err(TryRecvError::Empty));
}

#[test]
fn senders_that_do_not_wait_are_not_limited() {
    let (mut ch, tx, mut rx) = channel::<u32, u8>(1);
    let mut woken = Vec::new();
    assert_eq!(rx.poll_next(&mut ch, 9, false, &mut woken), Poll::Pending);
    for i in 0..10 {
        assert_eq!(tx.do_send(&mut ch, i, &mut woken), Ok(()));
    }
    assert_eq!(woken, vec![9]);
    for i in 0..10 {
        assert_eq!(rx.poll_next(&mut ch, 9, false, &mut woken), Poll::Ready(Some(i)));
    }
    // Those messages were not counted when they came, but when they went: the count has wrapped
    // around, and whoever waits to send waits on.
    let mut fut = tx.send(11);
    assert!(fut.poll(&mut ch, 1, false, &mut woken) == Poll::Pending);
}

#[test]
fn closed_channel_refuses_messages() {
    let (mut ch, tx, rx) = channel::<u32, u8>(1);
    let mut woken = Vec::new();
    let mut waiting = rx.clone(&mut ch);
    assert_eq!(waiting.poll_next(&mut ch, 4, false, &mut woken), Poll::Pending);
    assert!(rx.close(&mut ch, &mut woken));
    assert!(!tx.close(&mut ch, &mut woken));
    assert_eq!(woken, vec![4]);
    assert_eq!(tx.do_send(&mut ch, 1, &mut woken), Err(TrySendError::Closed(1)));
    let mut fut = tx.send(1);
    assert!(
        fut.poll(&mut ch, 1, false, &mut woken) == Poll::Ready(Err(ActixAsyncError::Closed))
    );
    assert_eq!(waiting.poll_next(&mut ch, 4, false, &mut woken), Poll::Ready(None));
    assert!(rx.as_sender(&mut ch).is_none());
}

#[test]
fn close_with_the_count_at_its_limit() {
    let (mut ch, tx, rx) = channel::<u32, u8>(1);
    let mut woken = Vec::new();
    let mut a = tx.send(1);
    let mut b = tx.send(2);
    assert!(a.poll(&mut ch, 1, false, &mut woken) == Poll::Ready(Ok(())));
    assert!(b.poll(&mut ch, 2, false, &mut woken) == Poll::Pending);
    assert!(tx.close(&mut ch, &mut woken));
    assert_eq!(woken, vec![2]);
    assert!(b.poll(&mut ch, 3, false, &mut woken) == Poll::Ready(Err(ActixAsyncError::Closed)));
    let mut c = tx.send(3);
    assert!(c.poll(&mut ch, 4, false, &mut woken) == Poll::Ready(Err(ActixAsyncError::Closed)));
    assert_eq!(rx.try_recv(&mut ch, &mut woken), Ok(1));
    assert_eq!(woken, vec![2]);
    assert_eq!(rx.try_recv(&mut ch, &mut woken), Err(TryRecvError::Closed));
}

#[test]
fn dropped_send_passes_its_turn_on() {
    let (mut ch, tx, rx) = channel::<u32, u8>(1);
    let mut woken = Vec::new();
    let mut a = tx.send(1);
    let mut b = tx.send(2);
    let mut c = tx.send(3);
    assert!(a.poll(&mut ch, 1, false, &mut woken) == Poll::Ready(Ok(())));
    assert!(b.poll(&mut ch, 2, false, &mut woken) == Poll::Pending);
    assert!(c.poll(&mut ch, 3, false, &mut woken) == Poll::Pending);
    assert_eq!(rx.try_recv(&mut ch, &mut woken), Ok(1));
    b.drop(&mut ch, &mut woken);
    assert_eq!(woken, vec![2, 3]);
    assert!(c.poll(&mut ch, 3, false, &mut woken) == Poll::Ready(Ok(())));
    a.drop(&mut ch, &mut woken);
    assert_eq!(woken, vec![2, 3]);
}

#[test]
fn ends_are_counted() {
    let (mut ch, tx, rx) = channel::<u32, u8>(3);
    let mut woken = Vec::new();
    let weak = tx.downgrade();
    let second = rx.as_sender(&mut ch).unwrap();
    tx.drop(&mut ch, &mut woken);
    assert_eq!(second.do_send(&mut ch, 1, &mut woken), Ok(()));
    let third = weak.upgrade(&mut ch).unwrap();
    second.drop(&mut ch, &mut woken);
    let fourth = third.clone(&mut ch);
    third.drop(&mut ch, &mut woken);
    assert_eq!(fourth.do_send(&mut ch, 2, &mut woken), Ok(()));
    fourth.drop(&mut ch, &mut woken);
    assert_eq!(rx.try_recv(&mut ch, &mut woken), Ok(1));
    assert_eq!(rx.try_recv(&mut ch, &mut woken), Ok(2));
    assert_eq!(rx.try_recv(&mut ch, &mut woken), Err(TryRecvError::Closed));
    rx.drop(&mut ch, &mut woken);
    assert!(weak.clone().upgrade(&mut ch).is_none());
}

#[test]
fn send_in_another_form() {
    let (mut ch, tx, rx) = channel::<String, u8>(1);
    let mut woken = Vec::new();
    let mut fut = tx.send(7).map(|n: i32| n.to_string());
    assert!(fut.poll(&mut ch, 1, false, &mut woken) == Poll::Ready(Ok(())));
    assert_eq!(rx.try_recv(&mut ch, &mut woken), Ok("7".to_string()));
}
