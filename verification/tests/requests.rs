use std::future::Future;
use std::pin::Pin;
use std::task::{Context, Poll as StdPoll};
use std::time::Duration;

use actix_async::actor::{create, ActorState};
use actix_async::address::Addr;
use actix_async::error::ActixAsyncError;
use actix_async::handler::handle;
use actix_async::message::{ActorMessage, Message, MessageContainer, Via};
use actix_async::request::{Action, Event, MessageRequest};
use actix_async::runtime::RuntimeService;
use actix_async::util::channel::{Channel, Receiver};
use actix_async::util::futures::Poll;
use actix_async::util::oneshot::{oneshot, OneshotRecvError, OneshotSender};

struct Timer(Duration);

impl Future for Timer {
    type Output = ();

    fn poll(self: Pin<&mut Self>, _: &mut Context<'_>) -> StdPoll<()> {
        StdPoll::Pending
    }
}

struct TestRuntime;

impl RuntimeService for TestRuntime {
    type Sleep = Timer;

    fn sleep(dur: Duration) -> Timer {
        Timer(dur)
    }

    fn spawn<F: Future<Output = ()> + 'static>(_: F) {}
}

struct Ask(u32);

impl Message for Ask {
    type Result = u32;
}

fn request() -> MessageRequest<TestRuntime, u8> {
    let (_, _, rx) = oneshot::<u32, u8>();
    MessageRequest::new(3, rx)
}

#[test]
fn default_timeouts() {
    match request() {
        MessageRequest::Request { fut, timeout, timeout_response, .. } => {
            assert_eq!(fut, 3);
            assert_eq!(timeout.0, Duration::from_secs(10));
            assert!(timeout_response.is_none());
        }
        MessageRequest::Response { .. } => panic!("not sent yet"),
    }
}

#[test]
fn timeouts_can_be_set() {
    let request = request()
        .timeout(Duration::from_millis(5))
        .timeout_response(Duration::from_millis(7));
    match request {
        MessageRequest::Request { fut, timeout, timeout_response, .. } => {
            assert_eq!(fut, 3);
            assert_eq!(timeout.0, Duration::from_millis(5));
            assert_eq!(timeout_response, Some(Duration::from_millis(7)));
        }
        MessageRequest::Response { .. } => panic!("not sent yet"),
    }
}

#[test]
fn request_that_is_answered() {
    let request = request();
    assert!(request.poll::<u32>() == Action::PollSend);
    let (request, action) = request.resume::<u32>(Event::Sent(Poll::Pending));
    assert!(action == Action::PollTimeout);
    let (request, action) = request.resume::<u32>(Event::Timeout(Poll::Pending));
    assert!(action == Action::Return(Poll::Pending));
    let (request, action) = request.resume::<u32>(Event::Sent(Poll::Ready(Ok(()))));
    assert!(action == Action::PollReceive);
    let (request, action) = request.resume::<u32>(Event::Received(Poll::Pending));
    // There is no timeout for the answer.
    assert!(action == Action::Return(Poll::Pending));
    assert!(request.poll::<u32>() == Action::PollReceive);
    let (_, action) = request.resume(Event::Received(Poll::Ready(Ok(996))));
    assert!(action == Action::Return(Poll::Ready(Ok(996))));
}

#[test]
fn request_that_is_not_sent_in_time() {
    let (request, _) = request().resume::<u32>(Event::Sent(Poll::Pending));
    let (_, action) = request.resume::<u32>(Event::Timeout(Poll::Ready(())));
    assert!(action == Action::Return(Poll::Ready(Err(ActixAsyncError::SendTimeout))));
}

#[test]
fn request_that_is_not_answered_in_time() {
    let request = request().timeout_response(Duration::from_secs(1));
    // The time for the answer does not run while the message is not sent.
    let (request, action) = request.resume::<u32>(Event::Sent(Poll::Pending));
    assert!(action == Action::PollTimeout);
    let (request, _) = request.resume::<u32>(Event::Timeout(Poll::Pending));
    assert!(matches!(
        request,
        MessageRequest::Request { timeout_response: Some(dur), .. } if dur == Duration::from_secs(1)
    ));
    let (request, _) = request.resume::<u32>(Event::Sent(Poll::Ready(Ok(()))));
    assert!(matches!(
        &request,
        MessageRequest::Response { timeout_response: Some(Timer(dur)), .. }
            if *dur == Duration::from_secs(1)
    ));
    let (request, action) = request.resume::<u32>(Event::Received(Poll::Pending));
    assert!(action == Action::PollTimeoutResponse);
    let (request, action) = request.resume::<u32>(Event::TimeoutResponse(Poll::Pending));
    assert!(action == Action::Return(Poll::Pending));
    let (_, action) = request.resume::<u32>(Event::TimeoutResponse(Poll::Ready(())));
    assert!(action == Action::Return(Poll::Ready(Err(ActixAsyncError::ReceiveTimeout))));
}

#[test]
fn request_that_is_dropped_by_the_actor() {
    let (request, _) = request().resume::<u32>(Event::Sent(Poll::Ready(Ok(()))));
    let (_, action) = request.resume::<u32>(Event::Received(Poll::Ready(Err(OneshotRecvError))));
    assert!(action == Action::Return(Poll::Ready(Err(ActixAsyncError::Receive))));
}

#[test]
fn request_that_is_refused() {
    let (_, action) =
        request().resume::<u32>(Event::Sent(Poll::Ready(Err(ActixAsyncError::Closed))));
    assert!(action == Action::Return(Poll::Ready(Err(ActixAsyncError::Closed))));
}

type AskMessage = ActorMessage<MessageContainer<Ask>, OneshotSender>;

fn actor() -> (Channel<AskMessage, u8>, Addr, Receiver) {
    create(4)
}

#[test]
fn address_sends_to_both_handlers() {
    let (mut channel, addr, rx) = actor();
    let mut woken = Vec::new();
    let (request, _) = addr.send::<TestRuntime, Ask, u8>(Ask(1));
    match request {
        MessageRequest::Request { mut fut, .. } => {
            assert!(fut.poll(&mut channel, 1, false, &mut woken) == Poll::Ready(Ok(())));
        }
        MessageRequest::Response { .. } => panic!("not sent yet"),
    }
    let (request, _) = addr.wait::<TestRuntime, Ask, u8>(Ask(2));
    match request {
        MessageRequest::Request { mut fut, .. } => {
            assert!(fut.poll(&mut channel, 1, false, &mut woken) == Poll::Ready(Ok(())));
        }
        MessageRequest::Response { .. } => panic!("not sent yet"),
    }
    match rx.try_recv(&mut channel, &mut woken) {
        Ok(ActorMessage::Ref(mut container)) => {
            let (msg, tx) = container.take();
            assert_eq!(msg.0, 1);
            assert!(tx.is_some());
            assert!(container.msg.is_none());
            assert!(container.tx.is_none());
        }
        _ => panic!("a concurrent message was sent"),
    }
    match rx.try_recv(&mut channel, &mut woken) {
        Ok(ActorMessage::Mut(container)) => assert_eq!(container.msg.unwrap().0, 2),
        _ => panic!("an exclusive message was sent"),
    }
}

#[test]
fn answer_reaches_the_request_that_asked() {
    let (mut channel, addr, rx) = actor();
    let mut woken = Vec::new();
    let (first, mut first_answer) = addr.send::<TestRuntime, Ask, u8>(Ask(1));
    let (second, mut second_answer) = addr.send::<TestRuntime, Ask, u8>(Ask(2));
    let mut receivers = Vec::new();
    for request in [first, second] {
        if let MessageRequest::Request { mut fut, rx, .. } = request {
            assert!(fut.poll(&mut channel, 1, false, &mut woken) == Poll::Ready(Ok(())));
            receivers.push(rx);
        }
    }
    for answer in [&mut first_answer, &mut second_answer] {
        match rx.try_recv(&mut channel, &mut woken) {
            Ok(ActorMessage::Ref(mut container)) => {
                let (msg, tx) = container.take();
                let answering = handle(tx, answer, &mut woken).unwrap();
                answering.finish(answer, msg.0 * 10, &mut woken);
            }
            _ => panic!("a concurrent message was sent"),
        }
    }
    assert!(receivers[1].poll(&mut second_answer, 1) == Poll::Ready(Ok(20)));
    assert!(receivers[0].poll(&mut first_answer, 1) == Poll::Ready(Ok(10)));
}

#[test]
fn address_orders_to_stop() {
    let (mut channel, addr, rx) = actor();
    let mut woken = Vec::new();
    let (request, _) = addr.stop::<TestRuntime, MessageContainer<Ask>, u8>(true);
    if let MessageRequest::Request { mut fut, .. } = request {
        assert!(fut.poll(&mut channel, 1, false, &mut woken) == Poll::Ready(Ok(())));
    }
    let (request, _) = addr.stop::<TestRuntime, MessageContainer<Ask>, u8>(false);
    if let MessageRequest::Request { mut fut, .. } = request {
        assert!(fut.poll(&mut channel, 1, false, &mut woken) == Poll::Ready(Ok(())));
    }
    assert!(matches!(
        rx.try_recv(&mut channel, &mut woken),
        Ok(ActorMessage::State(ActorState::StopGraceful, _))
    ));
    assert!(matches!(
        rx.try_recv(&mut channel, &mut woken),
        Ok(ActorMessage::State(ActorState::Stop, _))
    ));
}

#[test]
fn address_runs_closures() {
    let (mut channel, addr, rx) = create(2);
    let mut woken: Vec<u8> = Vec::new();
    let (request, _) = addr.run::<TestRuntime, u32, u32, u8>(123);
    if let MessageRequest::Request { mut fut, .. } = request {
        assert!(fut.poll(&mut channel, 1, false, &mut woken) == Poll::Ready(Ok(())));
    }
    match rx.try_recv(&mut channel, &mut woken) {
        Ok(ActorMessage::Ref(container)) => assert_eq!(container.msg.unwrap().func, 123),
        _ => panic!("a concurrent closure was sent"),
    }
    let (mut channel, addr, rx) = create(2);
    let (request, _) = addr.run_wait::<TestRuntime, u32, u32, u8>(321);
    if let MessageRequest::Request { mut fut, .. } = request {
        assert!(fut.poll(&mut channel, 1, false, &mut woken) == Poll::Ready(Ok(())));
    }
    match rx.try_recv(&mut channel, &mut woken) {
        Ok(ActorMessage::Mut(container)) => assert_eq!(container.msg.unwrap().func, 321),
        _ => panic!("an exclusive closure was sent"),
    }
}

#[test]
fn weak_address_needs_an_address() {
    let (mut channel, addr, rx) = actor();
    let mut woken = Vec::new();
    let weak = addr.downgrade();
    let second = weak.upgrade(&mut channel);
    assert!(second.is_some());
    addr.drop(&mut channel, &mut woken);
    let message = ActorMessage::Ref(MessageContainer::new(Ask(7), None));
    let (third, mut fut) = match weak._send(&mut channel, message) {
        Ok(sent) => sent,
        Err(_) => panic!("an address is left"),
    };
    assert!(fut.poll(&mut channel, 1, false, &mut woken) == Poll::Ready(Ok(())));
    fut.drop(&mut channel, &mut woken);
    third.drop(&mut channel, &mut woken);
    second.unwrap().drop(&mut channel, &mut woken);
    assert!(weak.upgrade(&mut channel).is_none());
    assert!(matches!(rx.try_recv(&mut channel, &mut woken), Ok(ActorMessage::Ref(_))));
}

#[test]
fn weak_address_of_a_closed_actor() {
    let (mut channel, addr, rx) = actor();
    let mut woken = Vec::new();
    let weak = addr.downgrade();
    let second = addr.clone(&mut channel);
    let fut = second.do_send_inner(Ask(5), Via::Ref);
    fut.drop(&mut channel, &mut woken);
    addr.drop(&mut channel, &mut woken);
    second.drop(&mut channel, &mut woken);
    assert!(Addr::from_recv(&rx, &mut channel).is_none());

    let weak = weak.clone();
    assert!(weak.upgrade(&mut channel).is_none());
    let message = ActorMessage::Ref(MessageContainer::new(Ask(7), None));
    assert!(matches!(weak._send(&mut channel, message), Err(ActixAsyncError::Closed)));
}
