use std::future::Future;
use std::pin::Pin;
use std::sync::Arc;
use std::task::{Context as StdContext, Poll as StdPoll};
use std::time::Duration;

use actix_async::actor::{create, Actor, ActorState, CHANNEL_CAP};
use actix_async::context::{Context, ContextJoinHandle};
use actix_async::message::{
    message_send_check, ActorMessage, ActorMessageClone, FunctionMessage, FunctionMutMessage,
    FutureMessage, IntervalMessage, Message, MessageContainer, StreamContainer, StreamMessage, Via,
};
use actix_async::runtime::RuntimeService;
use actix_async::util::futures::Poll;
use actix_async::util::oneshot::oneshot;

#[derive(PartialEq, Debug)]
struct Timer(Duration);

impl Future for Timer {
    type Output = ();

    fn poll(self: Pin<&mut Self>, _: &mut StdContext<'_>) -> StdPoll<()> {
        StdPoll::Pending
    }
}

struct TestRuntime;

impl RuntimeService for TestRuntime {
    type Sleep = Timer;

    fn sleep(dur: Duration) -> Timer {
        Timer(dur)
    }

    fn spawn<F: Future<Output = ()> + 'static>(_: F) {}
}

struct Default256;

impl Actor for Default256 {}

struct Small;

impl Actor for Small {
    fn size_hint() -> usize {
        3
    }
}

struct Ask;

impl Message for Ask {
    type Result = u32;
}

type TestContext =
    Context<FutureMessage<TestRuntime, u32, u8>, StreamMessage<TestRuntime, u32, StreamContainer<&'static str>>>;

#[test]
fn capacity_of_an_actor() {
    assert_eq!(Default256::size_hint(), 256);
    assert_eq!(CHANNEL_CAP, 256);
    assert_eq!(Small::size_hint(), 3);
}

#[test]
fn messages_in_a_box_are_messages() {
    message_send_check::<Ask>();
    message_send_check::<Box<Ask>>();
    message_send_check::<Arc<Ask>>();
    message_send_check::<FunctionMessage<u8, u8>>();
    message_send_check::<FunctionMutMessage<u8, u8>>();
}

#[test]
fn function_messages_are_cloned() {
    let msg: FunctionMessage<String, ()> = FunctionMessage::new("f".to_string());
    assert_eq!(msg.clone().func, "f");
    let msg: FunctionMutMessage<String, ()> = FunctionMutMessage::new("g".to_string());
    assert_eq!(msg.clone().func, "g");
    assert!(matches!(
        ActorMessageClone::Ref(5).clone::<u8>(),
        ActorMessage::Ref(MessageContainer { msg: Some(5), tx: None })
    ));
    assert!(matches!(
        ActorMessageClone::Mut(6).clone::<u8>(),
        ActorMessage::Mut(MessageContainer { msg: Some(6), tx: None })
    ));
}

#[test]
fn delayed_message_is_due_once() {
    let (mut channel, tx, rx) = oneshot::<(), u8>();
    let handle = ContextJoinHandle { handle: tx };
    let dur = Duration::from_millis(500);
    let mut msg: FutureMessage<TestRuntime, u32, u8> =
        FutureMessage::new(dur, rx, ActorMessage::Mut(9));
    assert_eq!(msg.delay, Timer(dur));
    assert_eq!(msg.poll(&mut channel, false, Poll::Pending), Poll::Pending);
    assert!(!handle.is_terminated(&channel));
    assert_eq!(
        msg.poll(&mut channel, false, Poll::Ready(())),
        Poll::Ready(Some(ActorMessage::Mut(9)))
    );
    assert!(handle.is_terminated(&channel));
    msg.release(&mut channel);
    assert!(handle.is_terminated(&channel));
}

#[test]
fn canceled_message_is_terminated() {
    let (mut channel, tx, rx) = oneshot::<(), u8>();
    let mut msg: FutureMessage<TestRuntime, u32, u8> =
        FutureMessage::new(Duration::from_millis(500), rx, ActorMessage::Ref(9));
    assert_eq!(msg.poll(&mut channel, true, Poll::Ready(())), Poll::Ready(None));
    assert!(msg.handle.is_none());
    assert!(tx.is_closed(&channel));
}

#[test]
fn dropped_message_is_terminated() {
    let (mut channel, tx, rx) = oneshot::<(), u8>();
    let mut msg: FutureMessage<TestRuntime, u32, u8> =
        FutureMessage::new(Duration::from_millis(500), rx, ActorMessage::Ref(9));
    assert!(!tx.is_closed(&channel));
    msg.release(&mut channel);
    assert!(tx.is_closed(&channel));
}

#[test]
fn interval_is_due_again_and_again() {
    let (mut channel, tx, rx) = oneshot::<(), u8>();
    let dur = Duration::from_millis(500);
    let mut msg: IntervalMessage<TestRuntime, u32> =
        IntervalMessage::new(dur, rx, ActorMessageClone::Ref(4));
    let mut woken = Vec::new();
    for n in 1..5 {
        msg.delay = Timer(Duration::from_millis(0));
        assert!(matches!(
            msg.poll_next::<u8, u8>(&mut channel, false, Poll::Pending, 1, &mut woken),
            Poll::Pending
        ));
        assert!(matches!(
            msg.poll_next::<u8, u8>(&mut channel, false, Poll::Ready(()), 1, &mut woken),
            Poll::Ready(Some(ActorMessage::Ref(MessageContainer { msg: Some(4), tx: None })))
        ));
        assert_eq!(msg.delay, Timer(dur));
        assert_eq!(woken.len(), n);
        assert!(!tx.is_closed(&channel));
    }
    assert!(matches!(
        msg.poll_next::<u8, u8>(&mut channel, true, Poll::Ready(()), 1, &mut woken),
        Poll::Ready(None)
    ));
    assert_eq!(woken.len(), 4);
    assert!(tx.is_closed(&channel));
}

#[test]
fn items_of_a_stream_become_messages() {
    let (mut channel, tx, rx) = oneshot::<(), u8>();
    let mut stream = StreamContainer::new("s", rx, Via::Mut);
    assert!(matches!(
        stream.poll_next::<u32, u8, u8>(&mut channel, false, Poll::Ready(Some(3))),
        Poll::Ready(Some(ActorMessage::Mut(MessageContainer { msg: Some(3), tx: None })))
    ));
    assert!(matches!(
        stream.poll_next::<u32, u8, u8>(&mut channel, false, Poll::Pending),
        Poll::Pending
    ));
    assert!(!tx.is_closed(&channel));
    assert!(matches!(
        stream.poll_next::<u32, u8, u8>(&mut channel, false, Poll::Ready(None)),
        Poll::Ready(None)
    ));
    assert!(tx.is_closed(&channel));
}

#[test]
fn canceled_stream_is_over() {
    let (mut channel, tx, rx) = oneshot::<(), u8>();
    let mut stream = StreamContainer::new("s", rx, Via::Ref);
    assert!(matches!(
        stream.poll_next::<u32, u8, u8>(&mut channel, true, Poll::Ready(Some(3))),
        Poll::Ready(None)
    ));
    assert!(tx.is_closed(&channel));
}

#[test]
fn dropped_sources_are_terminated() {
    let mut ctx: TestContext = Context::new();
    let (interval, mut first) = ctx.run_interval::<u8>(Duration::from_secs(1), 3);
    let (stream, mut second) = ctx.add_stream::<u8>("s");
    ctx.stream_cache[0].release(&mut first);
    assert!(interval.is_terminated(&first));
    assert!(!stream.is_terminated(&second));
    ctx.stream_cache[1].release(&mut second);
    assert!(stream.is_terminated(&second));
}

#[test]
fn context_collects_tasks() {
    let mut ctx: TestContext = Context::new();
    assert!(!ctx.is_running());
    let dur = Duration::from_secs(2);
    let (handle, channel) = ctx.run_later::<u8>(dur, 1);
    assert!(!handle.is_terminated(&channel));
    ctx.run_wait_later::<u8>(dur, 2);
    assert_eq!(ctx.future_cache.len(), 2);
    assert_eq!(ctx.future_cache[0].msg, Some(ActorMessage::Ref(1)));
    assert_eq!(ctx.future_cache[1].msg, Some(ActorMessage::Mut(2)));
    assert_eq!(ctx.future_cache[1].delay, Timer(dur));

    ctx.run_interval::<u8>(dur, 3);
    ctx.run_wait_interval::<u8>(dur, 4);
    ctx.add_stream::<u8>("s");
    ctx.add_wait_stream::<u8>("w");
    assert_eq!(ctx.stream_cache.len(), 4);
    match &ctx.stream_cache[0] {
        StreamMessage::Interval(interval) => {
            assert_eq!(interval.dur, dur);
            assert!(matches!(interval.msg, ActorMessageClone::Ref(3)));
        }
        StreamMessage::Boxed(_) => panic!("an interval was added"),
    }
    assert!(matches!(
        &ctx.stream_cache[1],
        StreamMessage::Interval(IntervalMessage { msg: ActorMessageClone::Mut(4), .. })
    ));
    assert!(matches!(
        &ctx.stream_cache[2],
        StreamMessage::Boxed(StreamContainer { stream: "s", f: Via::Ref, .. })
    ));
    assert!(matches!(
        &ctx.stream_cache[3],
        StreamMessage::Boxed(StreamContainer { stream: "w", f: Via::Mut, .. })
    ));
}

#[test]
fn context_stops_its_actor() {
    let mut ctx: TestContext = Context::new();
    let (mut channel, addr, rx) = create::<u32, u8>(4);
    let mut woken = Vec::new();
    let second = ctx.address(&rx, &mut channel);
    assert!(second.is_some());
    ctx.stop(&rx, &mut channel, &mut woken);
    assert_eq!(ctx.state, ActorState::StopGraceful);
    assert!(ctx.address(&rx, &mut channel).is_none());
    addr.drop(&mut channel, &mut woken);
}
