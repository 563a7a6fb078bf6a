use actix_async::error::ActixAsyncError;
use actix_async::util::async_channel::bounded;
use actix_async::util::bounded::{TryRecvError, TrySendError};
use actix_async::util::futures::Poll;

#[test]
fn messages_come_out_in_order() {
    let (mut channel, tx, rx) = bounded::<u32, u8>(2);
    let mut woken = Vec::new();
    assert_eq!(rx.try_recv(&mut channel, &mut woken), Err(TryRecvError::Empty));
    assert_eq!(tx.try_send(&mut channel, 1, &mut woken), Ok(()));
    assert_eq!(tx.try_send(&mut channel, 2, &mut woken), Ok(()));
    assert_eq!(tx.try_send(&mut channel, 3, &mut woken), Err(TrySendError::Full(3)));
    assert_eq!(rx.try_recv(&mut channel, &mut woken), Ok(1));
    assert_eq!(rx.try_recv(&mut channel, &mut woken), Ok(2));
    assert!(woken.is_empty());
}

#[test]
fn waiting_stream_is_woken_by_a_message() {
    let (mut channel, tx, mut rx) = bounded::<u32, u8>(1);
    let mut woken = Vec::new();
    assert_eq!(rx.poll_next(&mut channel, 7, false, &mut woken), Poll::Pending);
    assert_eq!(rx.poll_next(&mut channel, 7, true, &mut woken), Poll::Pending);
    assert_eq!(tx.try_send(&mut channel, 5, &mut woken), Ok(()));
    assert_eq!(woken, vec![7]);
    assert_eq!(rx.poll_next(&mut channel, 7, true, &mut woken), Poll::Ready(Some(5)));
}

#[test]
fn stream_that_was_beaten_to_the_message_waits_again() {
    let (mut channel, tx, mut rx) = bounded::<u32, u8>(1);
    let mut woken = Vec::new();
    let other = rx.clone(&mut channel);
    assert_eq!(rx.poll_next(&mut channel, 7, false, &mut woken), Poll::Pending);
    assert_eq!(tx.try_send(&mut channel, 5, &mut woken), Ok(()));
    assert_eq!(other.try_recv(&mut channel, &mut woken), Ok(5));
    assert_eq!(rx.poll_next(&mut channel, 8, false, &mut woken), Poll::Pending);
    assert_eq!(tx.try_send(&mut channel, 6, &mut woken), Ok(()));
    assert_eq!(woken, vec![7, 8]);
    assert_eq!(rx.poll_next(&mut channel, 8, false, &mut woken), Poll::Ready(Some(6)));
}

#[test]
fn waiting_senders_get_their_turn() {
    let (mut channel, tx, rx) = bounded::<u32, u8>(1);
    let mut woken = Vec::new();
    let mut first = tx.send(1);
    let mut second = tx.send(2);
    let mut third = tx.send(3);
    assert!(first.poll(&mut channel, 1, false, &mut woken) == Poll::Ready(Ok(())));
    assert!(second.poll(&mut channel, 2, false, &mut woken) == Poll::Pending);
    assert!(third.poll(&mut channel, 3, false, &mut woken) == Poll::Pending);
    assert_eq!(rx.try_recv(&mut channel, &mut woken), Ok(1));
    assert_eq!(woken, vec![2]);
    // The second one gives up, and the third is told.
    second.drop(&mut channel, &mut woken);
    assert_eq!(woken, vec![2, 3]);
    assert!(third.poll(&mut channel, 3, false, &mut woken) == Poll::Ready(Ok(())));
    assert_eq!(rx.try_recv(&mut channel, &mut woken), Ok(3));
}

#[test]
fn sender_with_room_to_spare_wakes_the_next() {
    let (mut channel, tx, rx) = bounded::<u32, u8>(2);
    let mut woken = Vec::new();
    assert_eq!(tx.try_send(&mut channel, 1, &mut woken), Ok(()));
    assert_eq!(tx.try_send(&mut channel, 2, &mut woken), Ok(()));
    let mut third = tx.send(3);
    let mut fourth = tx.send(4);
    assert!(third.poll(&mut channel, 3, false, &mut woken) == Poll::Pending);
    assert!(fourth.poll(&mut channel, 4, false, &mut woken) == Poll::Pending);
    assert_eq!(rx.try_recv(&mut channel, &mut woken), Ok(1));
    assert_eq!(rx.try_recv(&mut channel, &mut woken), Ok(2));
    assert_eq!(woken, vec![3]);
    assert!(third.poll(&mut channel, 3, true, &mut woken) == Poll::Ready(Ok(())));
    third.drop(&mut channel, &mut woken);
    assert_eq!(woken, vec![3, 4]);
    assert!(fourth.poll(&mut channel, 4, true, &mut woken) == Poll::Ready(Ok(())));
}

#[test]
fn notified_sender_that_finds_no_room_waits_again() {
    let (mut channel, tx, rx) = bounded::<u32, u8>(1);
    let mut woken = Vec::new();
    assert_eq!(tx.try_send(&mut channel, 1, &mut woken), Ok(()));
    let mut second = tx.send(2);
    assert!(second.poll(&mut channel, 2, false, &mut woken) == Poll::Pending);
    assert_eq!(rx.try_recv(&mut channel, &mut woken), Ok(1));
    assert_eq!(tx.try_send(&mut channel, 9, &mut woken), Ok(()));
    assert!(second.poll(&mut channel, 5, false, &mut woken) == Poll::Pending);
    assert_eq!(rx.try_recv(&mut channel, &mut woken), Ok(9));
    assert_eq!(woken, vec![2, 5]);
    assert!(second.poll(&mut channel, 5, false, &mut woken) == Poll::Ready(Ok(())));
}

#[test]
fn close_wakes_everyone() {
    let (mut channel, tx, mut rx) = bounded::<u32, u8>(1);
    let mut woken = Vec::new();
    let mut other = rx.clone(&mut channel);
    assert_eq!(other.poll_next(&mut channel, 1, false, &mut woken), Poll::Pending);
    assert!(tx.close(&mut channel, &mut woken));
    assert!(!rx.close(&mut channel, &mut woken));
    assert_eq!(woken, vec![1]);
    assert_eq!(other.poll_next(&mut channel, 1, false, &mut woken), Poll::Ready(None));
    assert_eq!(rx.poll_next(&mut channel, 2, false, &mut woken), Poll::Ready(None));
    assert_eq!(tx.try_send(&mut channel, 4, &mut woken), Err(TrySendError::Closed(4)));
    let mut fut = tx.send(4);
    assert!(
        fut.poll(&mut channel, 3, false, &mut woken)
            == Poll::Ready(Err(ActixAsyncError::Closed))
    );
    assert!(rx.as_sender(&mut channel).is_none());
}

#[test]
fn last_sender_closes_and_messages_stay() {
    let (mut channel, tx, mut rx) = bounded::<u32, u8>(4);
    let mut woken = Vec::new();
    let weak = tx.downgrade();
    let second = tx.clone(&mut channel);
    assert_eq!(tx.try_send(&mut channel, 1, &mut woken), Ok(()));
    tx.drop(&mut channel, &mut woken);
    assert_eq!(second.try_send(&mut channel, 2, &mut woken), Ok(()));
    second.drop(&mut channel, &mut woken);
    assert_eq!(rx.poll_next(&mut channel, 1, false, &mut woken), Poll::Ready(Some(1)));
    assert_eq!(rx.poll_next(&mut channel, 1, false, &mut woken), Poll::Ready(Some(2)));
    assert_eq!(rx.poll_next(&mut channel, 1, false, &mut woken), Poll::Ready(None));
    // A sender can still be made, but the channel stays closed.
    let late = weak.clone().upgrade(&mut channel).unwrap();
    assert_eq!(late.try_send(&mut channel, 3, &mut woken), Err(TrySendError::Closed(3)));
    late.drop(&mut channel, &mut woken);
    rx.drop(&mut channel, &mut woken);
    assert!(weak.upgrade(&mut channel).is_none());
}

#[test]
fn last_receiver_closes() {
    let (mut channel, tx, rx) = bounded::<u32, u8>(1);
    let mut woken = Vec::new();
    assert_eq!(tx.try_send(&mut channel, 1, &mut woken), Ok(()));
    let mut fut = tx.send(2);
    assert!(fut.poll(&mut channel, 9, false, &mut woken) == Poll::Pending);
    let extra = rx.as_sender(&mut channel).unwrap();
    rx.drop(&mut channel, &mut woken);
    assert_eq!(woken, vec![9]);
    assert!(
        fut.poll(&mut channel, 9, false, &mut woken)
            == Poll::Ready(Err(ActixAsyncError::Closed))
    );
    assert_eq!(extra.try_send(&mut channel, 3, &mut woken), Err(TrySendError::Closed(3)));
}
