use actix_async::util::event::{Event, State};
use actix_async::util::futures::Poll;

#[test]
fn notified_states() {
    assert!(!State::<u8>::Created.is_notified());
    assert!(State::<u8>::Notified(false).is_notified());
    assert!(State::<u8>::Notified(true).is_notified());
    assert!(!State::Polling(1u8).is_notified());
}

#[test]
fn listeners_are_notified_in_order() {
    let mut event: Event<u8> = Event::new();
    let mut woken = Vec::new();
    event.notify(1, &mut woken);
    assert!(woken.is_empty());

    let mut a = event.listen();
    let mut b = event.listen();
    let mut c = event.listen();
    assert_eq!(a.poll(&mut event, 1, false), Poll::Pending);
    assert_eq!(b.poll(&mut event, 2, false), Poll::Pending);
    assert_eq!(c.poll(&mut event, 3, false), Poll::Pending);

    event.notify(2, &mut woken);
    assert_eq!(woken, vec![1, 2]);
    // Two are notified already.
    event.notify(2, &mut woken);
    assert_eq!(woken, vec![1, 2]);
    assert_eq!(c.poll(&mut event, 3, false), Poll::Pending);
    assert_eq!(a.poll(&mut event, 9, false), Poll::Ready(9));
    assert_eq!(b.poll(&mut event, 9, false), Poll::Ready(9));
    event.notify(usize::MAX, &mut woken);
    assert_eq!(woken, vec![1, 2, 3]);
    assert_eq!(c.poll(&mut event, 9, false), Poll::Ready(9));
}

#[test]
fn dropped_listener_passes_its_notification_on() {
    let mut event: Event<u8> = Event::default();
    let mut woken = Vec::new();
    let mut a = event.listen();
    let mut b = event.listen();
    assert_eq!(a.poll(&mut event, 1, false), Poll::Pending);
    assert_eq!(b.poll(&mut event, 2, false), Poll::Pending);
    event.notify(1, &mut woken);
    assert_eq!(woken, vec![1]);
    a.drop(&mut event, &mut woken);
    assert_eq!(woken, vec![1, 2]);
    assert_eq!(b.poll(&mut event, 2, false), Poll::Ready(2));
    // One that was not notified leaves without a trace.
    let c = event.listen();
    c.drop(&mut event, &mut woken);
    assert_eq!(woken, vec![1, 2]);
}

#[test]
fn waker_of_another_task_replaces_the_old_one() {
    let mut event: Event<u8> = Event::new();
    let mut woken = Vec::new();
    let mut a = event.listen();
    assert_eq!(a.poll(&mut event, 1, false), Poll::Pending);
    assert_eq!(a.poll(&mut event, 2, true), Poll::Pending);
    let mut b = event.listen();
    assert_eq!(b.poll(&mut event, 3, false), Poll::Pending);
    assert_eq!(b.poll(&mut event, 4, false), Poll::Pending);
    event.notify(2, &mut woken);
    assert_eq!(woken, vec![1, 4]);
}

#[test]
fn listener_that_was_not_polled_is_notified_without_a_waker() {
    let mut event: Event<u8> = Event::new();
    let mut woken = Vec::new();
    let mut a = event.listen();
    event.notify(1, &mut woken);
    assert!(woken.is_empty());
    assert!(a.poll(&mut event, 1, false).is_ready());
}
