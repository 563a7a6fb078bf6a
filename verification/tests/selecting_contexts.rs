use actix_async::actor::ActorState;
use actix_async::context::Context;
use actix_async::context_run::{Action, ContextFuture, Event};
use actix_async::message::ActorMessage;
use actix_async::util::futures::Poll;

type Fut = ContextFuture<&'static str, &'static str, &'static str, &'static str, u8>;
type Act = Action<&'static str, u8>;
type Ev = Event<&'static str, &'static str, u8>;

fn message(msg: ActorMessage<&'static str, u8>) -> Ev {
    Event::Message(Poll::Ready(Some(msg)))
}

/// A context whose actor has started, and which polls its channel.
fn ran(size_hint: usize) -> Fut {
    let mut fut: Fut = ContextFuture::start(Context::new(), size_hint);
    assert_eq!(fut.run(), Act::OnStart);
    assert_eq!(fut.resume(Ev::Built("on_start")), Act::PollExclusive);
    assert_eq!(fut.resume(Ev::Polled(Poll::Pending)), Act::Pending);
    assert_eq!(fut.run(), Act::PollExclusive);
    assert_eq!(fut.exclusive().map(|t| *t), Some("on_start"));
    assert_eq!(fut.resume(Ev::Polled(Poll::Ready(()))), Act::PollRecv);
    fut
}

#[test]
fn context_waits_for_all_at_once() {
    let mut fut = ran(8);
    fut.ctx().stream_cache.push("s");
    fut.ctx().future_cache.push("f");
    assert_eq!(fut.resume(message(ActorMessage::Ref("a"))), Act::HandleRef("a"));
    assert_eq!(fut.resume(Ev::Built("ta")), Act::Enqueue(0));
    assert_eq!(fut.resume(Ev::Done), Act::PollRecv);
    assert_eq!(fut.resume(Ev::Message(Poll::Pending)), Act::PopWake);
    assert_eq!(fut.resume(Ev::Woken(None)), Act::PollStream(0));
    assert_eq!(fut.resume(Ev::Message(Poll::Pending)), Act::PollFuture(0));
    assert_eq!(fut.resume(Ev::Message(Poll::Pending)), Act::Pending);
    assert_eq!(fut.run(), Act::PollRecv);
    assert_eq!(fut.resume(Ev::Message(Poll::Pending)), Act::PopWake);
    assert_eq!(fut.resume(Ev::Woken(Some(0))), Act::PollTask(0));
    assert_eq!(fut.task(0).map(|t| *t), Some("ta"));
    assert_eq!(fut.resume(Ev::Polled(Poll::Ready(()))), Act::Yield);
    assert_eq!(fut.run(), Act::PollRecv);
    assert_eq!(fut.resume(Ev::Message(Poll::Pending)), Act::PollStream(0));
    assert_eq!(fut.resume(Ev::Message(Poll::Ready(None))), Act::PollFuture(0));
    assert_eq!(fut.resume(message(ActorMessage::Mut("x"))), Act::HandleMut("x"));
}

#[test]
fn channel_is_left_alone_while_enough_tasks_run() {
    let mut fut = ran(1);
    fut.resume(message(ActorMessage::Ref("a")));
    assert_eq!(fut.resume(Ev::Built("ta")), Act::Enqueue(0));
    assert_eq!(fut.resume(Ev::Done), Act::PopWake);
    assert_eq!(fut.resume(Ev::Woken(Some(0))), Act::PollTask(0));
    assert_eq!(fut.resume(Ev::Polled(Poll::Pending)), Act::Yield);
    assert_eq!(fut.run(), Act::PopWake);
    assert_eq!(fut.resume(Ev::Woken(Some(0))), Act::PollTask(0));
    assert_eq!(fut.resume(Ev::Polled(Poll::Ready(()))), Act::Yield);
    assert_eq!(fut.run(), Act::PollRecv);
}

#[test]
fn exclusive_message_waits_until_it_is_alone() {
    let mut fut = ran(8);
    fut.resume(message(ActorMessage::Ref("a")));
    fut.resume(Ev::Built("ta"));
    fut.resume(Ev::Done);
    assert_eq!(fut.resume(message(ActorMessage::Mut("x"))), Act::PopWake);
    assert_eq!(fut.resume(Ev::Woken(None)), Act::Pending);
    assert_eq!(fut.run(), Act::PopWake);
    assert_eq!(fut.resume(Ev::Woken(Some(0))), Act::PollTask(0));
    assert_eq!(fut.resume(Ev::Polled(Poll::Ready(()))), Act::Yield);
    assert_eq!(fut.run(), Act::HandleMut("x"));
    assert_eq!(fut.resume(Ev::Built("tx")), Act::PollExclusive);
    assert_eq!(fut.resume(Ev::Polled(Poll::Ready(()))), Act::PollRecv);
}

#[test]
fn stop_at_once_drops_tasks() {
    let mut fut = ran(8);
    fut.resume(message(ActorMessage::Ref("a")));
    fut.resume(Ev::Built("ta"));
    fut.resume(Ev::Done);
    assert_eq!(
        fut.resume(message(ActorMessage::State(ActorState::Stop, 3))),
        Act::OnStop
    );
    assert!(fut.task(0).is_none());
    assert_eq!(fut.resume(Ev::Built("on_stop")), Act::PollExclusive);
    assert_eq!(fut.resume(Ev::Polled(Poll::Ready(()))), Act::Finish(Some(3)));
}

#[test]
fn graceful_stop_drains_the_channel() {
    let mut fut = ran(8);
    fut.ctx().stream_cache.push("s");
    fut.resume(message(ActorMessage::Ref("a")));
    fut.resume(Ev::Built("ta"));
    fut.resume(Ev::Done);
    assert_eq!(
        fut.resume(message(ActorMessage::State(ActorState::StopGraceful, 3))),
        Act::CloseRecv
    );
    // The messages that the channel holds are handled.
    assert_eq!(fut.resume(Ev::Done), Act::PollRecv);
    assert_eq!(fut.resume(message(ActorMessage::Ref("b"))), Act::HandleRef("b"));
    assert_eq!(fut.resume(Ev::Built("tb")), Act::Enqueue(1));
    assert_eq!(fut.resume(Ev::Done), Act::PollRecv);
    assert_eq!(fut.resume(message(ActorMessage::Mut("x"))), Act::PopWake);
    assert_eq!(fut.resume(Ev::Woken(Some(0))), Act::PollTask(0));
    assert_eq!(fut.resume(Ev::Polled(Poll::Ready(()))), Act::PopWake);
    assert_eq!(fut.resume(Ev::Woken(Some(1))), Act::PollTask(1));
    assert_eq!(fut.resume(Ev::Polled(Poll::Ready(()))), Act::Yield);
    assert_eq!(fut.run(), Act::HandleMut("x"));
    assert_eq!(fut.resume(Ev::Built("tx")), Act::PollExclusive);
    assert_eq!(fut.resume(Ev::Polled(Poll::Ready(()))), Act::PollRecv);
    assert_eq!(fut.resume(message(ActorMessage::Ref("c"))), Act::HandleRef("c"));
    assert_eq!(fut.resume(Ev::Built("tc")), Act::Enqueue(0));
    assert_eq!(fut.resume(Ev::Done), Act::PollRecv);
    // Then the tasks that are left are finished.
    assert_eq!(fut.resume(Ev::Message(Poll::Ready(None))), Act::PopWake);
    assert_eq!(fut.resume(Ev::Woken(None)), Act::Pending);
    assert_eq!(fut.run(), Act::PopWake);
    assert_eq!(fut.resume(Ev::Woken(Some(0))), Act::PollTask(0));
    assert_eq!(fut.resume(Ev::Polled(Poll::Pending)), Act::Yield);
    assert_eq!(fut.run(), Act::PopWake);
    assert_eq!(fut.resume(Ev::Woken(Some(0))), Act::PollTask(0));
    assert_eq!(fut.resume(Ev::Polled(Poll::Ready(()))), Act::Yield);
    assert_eq!(fut.run(), Act::OnStop);
    assert_eq!(fut.resume(Ev::Built("on_stop")), Act::PollExclusive);
    assert_eq!(fut.resume(Ev::Polled(Poll::Ready(()))), Act::Finish(Some(3)));
}

#[test]
fn context_that_is_stopped_from_within_drains_the_channel() {
    let mut fut = ran(8);
    fut.ctx().stream_cache.push("s");
    fut.ctx().future_cache.push("f");
    fut.resume(message(ActorMessage::Ref("a")));
    fut.resume(Ev::Built("ta"));
    fut.resume(Ev::Done);
    assert_eq!(fut.resume(message(ActorMessage::Mut("x"))), Act::PopWake);
    assert_eq!(fut.resume(Ev::Woken(Some(0))), Act::PollTask(0));
    fut.ctx().state = ActorState::StopGraceful;
    assert_eq!(fut.resume(Ev::Polled(Poll::Ready(()))), Act::Yield);
    assert_eq!(fut.run(), Act::HandleMut("x"));
    assert_eq!(fut.resume(Ev::Built("tx")), Act::PollExclusive);
    assert_eq!(fut.resume(Ev::Polled(Poll::Ready(()))), Act::PollRecv);
    assert_eq!(fut.resume(message(ActorMessage::Mut("y"))), Act::HandleMut("y"));
    assert_eq!(fut.resume(Ev::Built("ty")), Act::PollExclusive);
    assert_eq!(fut.resume(Ev::Polled(Poll::Ready(()))), Act::PollRecv);
    // Streams and delayed messages have no turn any more.
    assert_eq!(fut.resume(Ev::Message(Poll::Pending)), Act::Pending);
    assert_eq!(fut.run(), Act::PollRecv);
    assert_eq!(fut.resume(Ev::Message(Poll::Ready(None))), Act::OnStop);
}

#[test]
fn streams_are_left_alone_as_soon_as_the_actor_is_stopped() {
    let mut fut = ran(8);
    fut.ctx().stream_cache.push("s");
    fut.resume(message(ActorMessage::Ref("a")));
    fut.resume(Ev::Built("ta"));
    fut.resume(Ev::Done);
    assert_eq!(fut.resume(Ev::Message(Poll::Pending)), Act::PopWake);
    fut.ctx().state = ActorState::StopGraceful;
    assert_eq!(fut.resume(Ev::Woken(None)), Act::Pending);
}

#[test]
fn stop_at_once_while_the_channel_is_drained() {
    let mut fut = ran(8);
    fut.resume(message(ActorMessage::State(ActorState::StopGraceful, 3)));
    assert_eq!(fut.resume(Ev::Done), Act::PollRecv);
    assert_eq!(fut.resume(message(ActorMessage::State(ActorState::Stop, 4))), Act::OnStop);
    assert_eq!(fut.resume(Ev::Built("on_stop")), Act::PollExclusive);
    assert_eq!(fut.resume(Ev::Polled(Poll::Ready(()))), Act::Finish(Some(4)));
}

#[test]
fn actor_that_takes_no_messages_stops_gracefully() {
    let mut fut: Fut = ContextFuture::start(Context::new(), 0);
    fut.run();
    fut.resume(Ev::Built("on_start"));
    assert_eq!(fut.resume(Ev::Polled(Poll::Ready(()))), Act::Pending);
    fut.ctx().stream_cache.push("s");
    assert_eq!(fut.run(), Act::PollStream(0));
    assert_eq!(fut.resume(message(ActorMessage::Mut("x"))), Act::HandleMut("x"));
    assert_eq!(fut.resume(Ev::Built("tx")), Act::PollExclusive);
    fut.ctx().state = ActorState::StopGraceful;
    assert_eq!(fut.resume(Ev::Polled(Poll::Ready(()))), Act::OnStop);
}

#[test]
fn loss_of_the_last_address_is_the_end() {
    let mut fut = ran(8);
    fut.resume(message(ActorMessage::Ref("a")));
    fut.resume(Ev::Built("ta"));
    fut.resume(Ev::Done);
    assert_eq!(fut.resume(Ev::Message(Poll::Ready(None))), Act::CountAddrs);
    assert_eq!(fut.resume(Ev::Addrs(0)), Act::OnStop);
    assert!(fut.task(0).is_none());
    assert_eq!(fut.ctx().state, ActorState::Stop);
    assert_eq!(fut.resume(Ev::Built("on_stop")), Act::PollExclusive);
    assert_eq!(fut.resume(Ev::Polled(Poll::Ready(()))), Act::Finish(None));
}

#[test]
fn channel_that_another_instance_closed_lets_tasks_finish() {
    let mut fut = ran(8);
    fut.resume(message(ActorMessage::Ref("a")));
    fut.resume(Ev::Built("ta"));
    fut.resume(Ev::Done);
    assert_eq!(fut.resume(Ev::Message(Poll::Ready(None))), Act::CountAddrs);
    assert_eq!(fut.resume(Ev::Addrs(1)), Act::PopWake);
    assert_eq!(fut.resume(Ev::Woken(Some(0))), Act::PollTask(0));
    assert_eq!(fut.resume(Ev::Polled(Poll::Ready(()))), Act::Yield);
    assert_eq!(fut.run(), Act::OnStop);
}
