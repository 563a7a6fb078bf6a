use actix_async::handler::{handle, Answer};
use actix_async::message::poll_handle;
use actix_async::context::ContextJoinHandle;
use actix_async::util::futures::Poll;
use actix_async::util::oneshot::{oneshot, OneshotRecvError, SendError};

#[test]
fn value_that_is_sent_is_received_once() {
    let (mut channel, tx, mut rx) = oneshot::<u32, u8>();
    let mut woken = Vec::new();
    assert_eq!(rx.poll(&mut channel, 4), Poll::Pending);
    assert!(!tx.is_closed(&channel));
    assert_eq!(tx.send(&mut channel, 9, &mut woken), Ok(()));
    assert_eq!(woken, vec![4]);
    assert_eq!(rx.poll(&mut channel, 4), Poll::Ready(Ok(9)));
    assert_eq!(rx.poll(&mut channel, 4), Poll::Ready(Err(OneshotRecvError)));
}

#[test]
fn loss_of_the_sender_is_learned() {
    let (mut channel, tx, mut rx) = oneshot::<u32, u8>();
    let mut woken = Vec::new();
    assert_eq!(rx.poll(&mut channel, 4), Poll::Pending);
    tx.drop(&mut channel, &mut woken);
    assert_eq!(woken, vec![4]);
    assert_eq!(rx.poll(&mut channel, 4), Poll::Ready(Err(OneshotRecvError)));
}

#[test]
fn value_for_nobody_comes_back() {
    let (mut channel, tx, rx) = oneshot::<u32, u8>();
    let mut woken = Vec::new();
    rx.drop(&mut channel);
    assert!(tx.is_closed(&channel));
    assert_eq!(tx.send(&mut channel, 9, &mut woken), Err(SendError(9)));
    assert!(woken.is_empty());
}

#[test]
fn message_is_handled_while_somebody_waits_for_it() {
    let (mut channel, tx, mut rx) = oneshot::<u32, u8>();
    let mut woken = Vec::new();
    assert_eq!(rx.poll(&mut channel, 3), Poll::Pending);
    let answer = handle(Some(tx), &mut channel, &mut woken).unwrap();
    assert!(woken.is_empty());
    answer.finish(&mut channel, 996, &mut woken);
    assert_eq!(woken, vec![3]);
    assert_eq!(rx.poll(&mut channel, 3), Poll::Ready(Ok(996)));
}

#[test]
fn message_is_not_handled_when_nobody_waits_any_more() {
    let (mut channel, tx, rx) = oneshot::<u32, u8>();
    let mut woken = Vec::new();
    rx.drop(&mut channel);
    assert!(handle(Some(tx), &mut channel, &mut woken).is_none());
}

#[test]
fn message_that_nobody_ever_waited_for_is_handled() {
    let (mut channel, _tx, mut rx) = oneshot::<u32, u8>();
    let mut woken = Vec::new();
    assert!(matches!(handle(None, &mut channel, &mut woken), Some(Answer { tx: None })));
    Answer { tx: None }.finish(&mut channel, 5, &mut woken);
    assert_eq!(rx.poll(&mut channel, 1), Poll::Pending);
}

#[test]
fn canceled_task_knows() {
    let (mut channel, handle, rx) = oneshot::<(), u8>();
    let mut woken = Vec::new();
    let mut slot = Some(rx);
    assert!(!poll_handle(&mut slot, &mut channel, 2));
    assert!(slot.is_some());
    let handle = ContextJoinHandle { handle };
    assert!(!handle.is_terminated(&channel));
    handle.cancel(&mut channel, &mut woken);
    assert_eq!(woken, vec![2]);
    assert!(poll_handle(&mut slot, &mut channel, 2));
}

#[test]
fn task_without_a_handle_is_detached() {
    let (mut channel, handle, rx) = oneshot::<(), u8>();
    let mut woken = Vec::new();
    let mut slot = Some(rx);
    handle.drop(&mut channel, &mut woken);
    assert!(!poll_handle(&mut slot, &mut channel, 2));
    assert!(slot.is_none());
    assert!(!poll_handle(&mut slot, &mut channel, 2));
}

#[test]
fn finished_task_is_terminated() {
    let (mut channel, handle, rx) = oneshot::<(), u8>();
    let mut woken = Vec::new();
    rx.drop(&mut channel);
    let handle = ContextJoinHandle { handle };
    assert!(handle.is_terminated(&channel));
    handle.cancel(&mut channel, &mut woken);
    assert!(woken.is_empty());
}
