use actix_async::actor::ActorState;
use actix_async::context::{Action, Context, ContextFuture, Event};
use actix_async::message::ActorMessage;
use actix_async::util::futures::Poll;

type Fut = ContextFuture<&'static str, &'static str, &'static str, u8>;
type Act = Action<&'static str>;
type Ev = Event<&'static str, &'static str, u8>;

fn message(msg: ActorMessage<&'static str, u8>) -> Ev {
    Event::Message(Poll::Ready(Some(msg)))
}

/// A context whose actor has started, and which has nothing to do but to poll its channel.
fn started() -> Fut {
    let mut fut: Fut = ContextFuture::new(Context::new(), 256);
    assert_eq!(fut.poll::<&'static str>(), Act::OnStart);
    assert_eq!(fut.resume(Ev::Built("on_start")), Act::PollHook);
    assert_eq!(fut.hook().map(|t| *t), Some("on_start"));
    assert_eq!(fut.resume(Ev::Polled(Poll::Pending)), Act::Return(Poll::Pending));
    assert_eq!(fut.poll::<&'static str>(), Act::PollHook);
    assert_eq!(fut.resume(Ev::Polled(Poll::Ready(()))), Act::PollRecv);
    fut
}

#[test]
fn every_task_is_polled_in_every_round() {
    let mut fut = started();
    for name in ["a", "b", "c"] {
        assert_eq!(fut.resume(message(ActorMessage::Ref(name))), Act::HandleRef(name));
        assert_eq!(fut.resume(Ev::Built(name)), Act::PollRecv);
    }
    assert_eq!(fut.resume(Ev::Message(Poll::Pending)), Act::PollTask(0));
    // The last task takes the place of one that is finished.
    assert_eq!(fut.resume(Ev::Polled(Poll::Ready(()))), Act::PollTask(0));
    assert_eq!(*fut.task(0), "c");
    assert_eq!(fut.resume(Ev::Polled(Poll::Pending)), Act::PollTask(1));
    assert_eq!(*fut.task(1), "b");
    assert_eq!(fut.resume(Ev::Polled(Poll::Pending)), Act::PollRecv);
    assert_eq!(fut.resume(Ev::Message(Poll::Pending)), Act::Return(Poll::Pending));
}

#[test]
fn exclusive_task_blocks_the_rest() {
    let mut fut = started();
    fut.ctx().future_cache.push("f");
    assert_eq!(fut.resume(message(ActorMessage::Mut("x"))), Act::HandleMut("x"));
    assert_eq!(fut.resume(Ev::Built("tx")), Act::PollExclusive);
    assert_eq!(fut.exclusive().map(|t| *t), Some("tx"));
    assert_eq!(fut.resume(Ev::Polled(Poll::Pending)), Act::Return(Poll::Pending));
    assert_eq!(fut.poll::<&'static str>(), Act::PollExclusive);
    assert_eq!(fut.resume(Ev::Polled(Poll::Ready(()))), Act::PollFuture(0));
    assert_eq!(fut.resume(Ev::Message(Poll::Ready(None))), Act::PollRecv);
}

#[test]
fn exclusive_task_waits_for_the_others() {
    let mut fut = started();
    fut.resume(message(ActorMessage::Ref("a")));
    fut.resume(Ev::Built("ta"));
    fut.resume(message(ActorMessage::Mut("x")));
    assert_eq!(fut.resume(Ev::Built("tx")), Act::PollTask(0));
    assert_eq!(fut.resume(Ev::Polled(Poll::Pending)), Act::Return(Poll::Pending));
    assert_eq!(fut.poll::<&'static str>(), Act::PollTask(0));
    assert_eq!(fut.resume(Ev::Polled(Poll::Ready(()))), Act::PollExclusive);
}

#[test]
fn stream_is_polled_until_it_is_pending() {
    let mut fut = started();
    fut.ctx().stream_cache.push("s0");
    fut.ctx().stream_cache.push("s1");
    assert_eq!(fut.resume(Ev::Message(Poll::Pending)), Act::Return(Poll::Pending));
    assert_eq!(fut.poll::<&'static str>(), Act::PollStream(0));
    for _ in 0..40 {
        assert_eq!(fut.resume(message(ActorMessage::Ref("m"))), Act::HandleRef("m"));
        assert_eq!(fut.resume(Ev::Built("t")), Act::PollStream(0));
    }
    // A finished stream is removed, and the one in its place is next.
    assert_eq!(fut.resume(Ev::Message(Poll::Ready(None))), Act::PollStream(0));
    assert_eq!(fut.resume(Ev::Message(Poll::Pending)), Act::PollRecv);
}

#[test]
fn streams_have_no_turn_once_the_actor_is_stopped() {
    let mut fut = started();
    fut.ctx().stream_cache.push("s");
    fut.resume(Ev::Message(Poll::Pending));
    assert_eq!(fut.poll::<&'static str>(), Act::PollStream(0));
    assert_eq!(fut.resume(message(ActorMessage::Ref("m"))), Act::HandleRef("m"));
    fut.ctx().state = ActorState::StopGraceful;
    assert_eq!(fut.resume(Ev::Built("t")), Act::PollRecv);
}

#[test]
fn order_to_stop_at_once() {
    let mut fut = started();
    fut.resume(message(ActorMessage::Ref("a")));
    fut.resume(Ev::Built("ta"));
    assert_eq!(
        fut.resume(message(ActorMessage::State(ActorState::Stop, 4))),
        Act::CloseRecv
    );
    assert_eq!(fut.resume(Ev::Done), Act::OnStop);
    assert_eq!(fut.resume(Ev::Built("on_stop")), Act::PollHook);
    assert_eq!(fut.resume(Ev::Polled(Poll::Ready(()))), Act::Return(Poll::Ready(())));
    assert_eq!(fut.drop(), Some(4));
}

#[test]
fn order_to_stop_gracefully() {
    let mut fut = started();
    assert_eq!(
        fut.resume(message(ActorMessage::State(ActorState::StopGraceful, 4))),
        Act::CloseRecv
    );
    assert_eq!(fut.resume(Ev::Done), Act::PollRecv);
    fut.resume(message(ActorMessage::Ref("a")));
    assert_eq!(fut.resume(Ev::Built("ta")), Act::PollRecv);
    assert_eq!(fut.resume(Ev::Message(Poll::Ready(None))), Act::CloseRecv);
    assert_eq!(fut.resume(Ev::Done), Act::PollTask(0));
    assert_eq!(fut.resume(Ev::Polled(Poll::Pending)), Act::PollRecv);
    assert_eq!(fut.resume(Ev::Message(Poll::Ready(None))), Act::CloseRecv);
    assert_eq!(fut.resume(Ev::Done), Act::Return(Poll::Pending));
    assert_eq!(fut.poll::<&'static str>(), Act::PollTask(0));
    assert_eq!(fut.resume(Ev::Polled(Poll::Ready(()))), Act::PollRecv);
    assert_eq!(fut.resume(Ev::Message(Poll::Ready(None))), Act::CloseRecv);
    assert_eq!(fut.resume(Ev::Done), Act::OnStop);
}
