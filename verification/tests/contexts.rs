use actix_async::actor::ActorState;
use actix_async::context::Context;
use actix_async::context_future::{Action, ContextFuture, Event, STREAM_BUDGET};
use actix_async::message::ActorMessage;
use actix_async::util::futures::Poll;

type Fut = ContextFuture<&'static str, &'static str, &'static str, u8>;
type Act = Action<&'static str>;
type Msg = ActorMessage<&'static str, u8>;

fn event(msg: Poll<Option<Msg>>) -> Event<&'static str, &'static str, u8> {
    Event::Message(msg)
}

fn nothing() -> Event<&'static str, &'static str, u8> {
    Event::Message(Poll::Pending)
}

fn built(task: &'static str) -> Event<&'static str, &'static str, u8> {
    Event::Built(task)
}

fn done() -> Event<&'static str, &'static str, u8> {
    Event::Done
}

fn ready() -> Event<&'static str, &'static str, u8> {
    Event::Polled(Poll::Ready(()))
}

fn pending() -> Event<&'static str, &'static str, u8> {
    Event::Polled(Poll::Pending)
}

fn woken(idx: Option<usize>) -> Event<&'static str, &'static str, u8> {
    Event::Woken(idx)
}

/// A context whose actor has started, and which is about to look for woken tasks.
fn running() -> Fut {
    let mut fut: Fut = ContextFuture::new(Context::new(), 256);
    assert!(!fut.is_running());
    assert_eq!(fut.poll::<&'static str>(), Act::OnStart);
    assert_eq!(fut.resume(built("on_start")), Act::PollExclusive);
    assert_eq!(fut.exclusive().map(|t| *t), Some("on_start"));
    assert_eq!(fut.resume(pending()), Act::Return(Poll::Pending));
    assert_eq!(fut.poll::<&'static str>(), Act::PollExclusive);
    assert_eq!(fut.resume(ready()), Act::PopWake);
    assert!(fut.is_running());
    fut
}

#[test]
fn concurrent_message_is_handled() {
    let mut fut = running();
    assert_eq!(fut.resume(woken(None)), Act::PollRecv);
    assert_eq!(
        fut.resume(event(Poll::Ready(Some(ActorMessage::Ref("m"))))),
        Act::HandleRef("m")
    );
    assert_eq!(fut.resume(built("t")), Act::Enqueue(0));
    assert_eq!(fut.resume(done()), Act::PollRecv);
    // A new task asks for another round.
    assert_eq!(fut.resume(nothing()), Act::PopWake);
    assert_eq!(fut.resume(woken(Some(0))), Act::PollTask(0));
    assert_eq!(fut.task(0).map(|t| *t), Some("t"));
    assert!(fut.task(1).is_none());
    // As many tasks were looked at as there are.
    assert_eq!(fut.resume(ready()), Act::WakeSelf);
    assert!(fut.task(0).is_none());
    assert_eq!(fut.resume(done()), Act::PollRecv);
    assert_eq!(fut.resume(nothing()), Act::Return(Poll::Pending));
}

#[test]
fn index_of_a_finished_task_is_ignored() {
    let mut fut = running();
    assert_eq!(fut.resume(woken(Some(3))), Act::PopWake);
    assert_eq!(fut.resume(woken(Some(4))), Act::PopWake);
    assert_eq!(fut.resume(woken(None)), Act::PollRecv);
}

#[test]
fn exclusive_message_waits_for_concurrent_ones() {
    let mut fut = running();
    fut.resume(woken(None));
    fut.resume(event(Poll::Ready(Some(ActorMessage::Ref("a")))));
    fut.resume(built("ta"));
    assert_eq!(fut.resume(done()), Act::PollRecv);
    assert_eq!(
        fut.resume(event(Poll::Ready(Some(ActorMessage::Mut("b"))))),
        Act::HandleMut("b")
    );
    assert_eq!(fut.resume(built("tb")), Act::PopWake);
    assert_eq!(fut.resume(woken(Some(0))), Act::PollTask(0));
    assert_eq!(fut.resume(pending()), Act::WakeSelf);
    // The concurrent task is not finished: nothing else happens.
    assert_eq!(fut.resume(done()), Act::Return(Poll::Pending));
    assert_eq!(fut.poll::<&'static str>(), Act::PopWake);
    assert_eq!(fut.resume(woken(Some(0))), Act::PollTask(0));
    assert_eq!(fut.resume(ready()), Act::WakeSelf);
    assert_eq!(fut.resume(done()), Act::PollExclusive);
    assert_eq!(fut.resume(pending()), Act::Return(Poll::Pending));
    assert_eq!(fut.poll::<&'static str>(), Act::PopWake);
    assert_eq!(fut.resume(woken(None)), Act::PollExclusive);
    assert_eq!(fut.resume(ready()), Act::PollRecv);
}

#[test]
fn delayed_messages_come_before_streams_and_channel() {
    let mut fut = running();
    fut.ctx().future_cache.push("f0");
    fut.ctx().future_cache.push("f1");
    fut.ctx().future_cache.push("f2");
    fut.ctx().stream_cache.push("s0");
    assert_eq!(fut.resume(woken(None)), Act::PollFuture(0));
    // A canceled one is removed, and the last one takes its place.
    assert_eq!(fut.resume(event(Poll::Ready(None))), Act::PollFuture(0));
    assert_eq!(*fut.future(0), "f2");
    assert_eq!(fut.resume(nothing()), Act::PollFuture(1));
    assert_eq!(
        fut.resume(event(Poll::Ready(Some(ActorMessage::Ref("m"))))),
        Act::HandleRef("m")
    );
    assert_eq!(fut.resume(built("t")), Act::Enqueue(0));
    assert_eq!(fut.resume(done()), Act::PollStream(0));
    assert_eq!(*fut.stream(0), "s0");
    assert_eq!(
        fut.resume(event(Poll::Ready(Some(ActorMessage::Mut("x"))))),
        Act::HandleMut("x")
    );
    assert_eq!(fut.resume(built("tx")), Act::PopWake);
}

#[test]
fn stream_has_to_wait_after_its_budget() {
    let mut fut = running();
    fut.ctx().stream_cache.push("s0");
    fut.ctx().stream_cache.push("s1");
    let mut action = fut.resume(woken(None));
    for i in 0..STREAM_BUDGET {
        assert_eq!(action, Act::PollStream(0));
        fut.resume(event(Poll::Ready(Some(ActorMessage::Ref("m")))));
        assert_eq!(fut.resume(built("t")), Act::Enqueue(i));
        action = fut.resume(done());
    }
    assert_eq!(STREAM_BUDGET, 16);
    assert_eq!(action, Act::PollStream(1));
    assert_eq!(fut.resume(nothing()), Act::PollRecv);
    assert_eq!(fut.resume(nothing()), Act::PopWake);
}

#[test]
fn finished_stream_is_removed() {
    let mut fut = running();
    fut.ctx().stream_cache.push("s0");
    fut.ctx().stream_cache.push("s1");
    fut.ctx().stream_cache.push("s2");
    assert_eq!(fut.resume(woken(None)), Act::PollStream(0));
    assert_eq!(fut.resume(event(Poll::Ready(None))), Act::PollStream(1));
    assert_eq!(*fut.stream(0), "s2");
    assert_eq!(*fut.stream(1), "s1");
    assert_eq!(fut.resume(event(Poll::Ready(None))), Act::PollRecv);
}

#[test]
fn stream_in_the_place_of_a_finished_one_has_its_turn() {
    let mut fut = running();
    fut.ctx().stream_cache.push("s0");
    fut.ctx().stream_cache.push("s1");
    assert_eq!(fut.resume(woken(None)), Act::PollStream(0));
    assert_eq!(fut.resume(event(Poll::Ready(None))), Act::PollRecv);
    assert_eq!(*fut.stream(0), "s1");
    assert_eq!(fut.resume(nothing()), Act::PopWake);
    assert_eq!(fut.resume(woken(None)), Act::PollStream(0));
    // Nothing takes the place of the last one.
    assert_eq!(fut.resume(event(Poll::Ready(None))), Act::PollRecv);
    assert_eq!(fut.resume(nothing()), Act::Return(Poll::Pending));
}

#[test]
fn stop_inside_a_round_leaves_streams_alone() {
    let mut fut = running();
    fut.ctx().future_cache.push("f0");
    fut.ctx().future_cache.push("f1");
    fut.ctx().stream_cache.push("s");
    assert_eq!(fut.resume(woken(None)), Act::PollFuture(0));
    assert_eq!(
        fut.resume(event(Poll::Ready(Some(ActorMessage::Ref("m"))))),
        Act::HandleRef("m")
    );
    fut.ctx().state = ActorState::StopGraceful;
    assert_eq!(fut.resume(built("t")), Act::Enqueue(0));
    assert_eq!(fut.resume(done()), Act::PollRecv);

    let mut fut = running();
    fut.ctx().stream_cache.push("s");
    assert_eq!(fut.resume(woken(None)), Act::PollStream(0));
    fut.resume(event(Poll::Ready(Some(ActorMessage::Ref("m")))));
    fut.ctx().state = ActorState::StopGraceful;
    fut.resume(built("t"));
    assert_eq!(fut.resume(done()), Act::PollRecv);
}

#[test]
fn forced_stop_leaves_tasks_behind() {
    let mut fut = running();
    fut.resume(woken(None));
    fut.resume(event(Poll::Ready(Some(ActorMessage::Ref("a")))));
    fut.resume(built("ta"));
    fut.resume(done());
    assert_eq!(
        fut.resume(event(Poll::Ready(Some(ActorMessage::State(ActorState::Stop, 9))))),
        Act::CloseRecv
    );
    assert_eq!(fut.resume(done()), Act::OnStop);
    assert_eq!(fut.resume(built("on_stop")), Act::PollExclusive);
    assert_eq!(fut.resume(pending()), Act::Return(Poll::Pending));
    assert_eq!(fut.poll::<&'static str>(), Act::PollExclusive);
    assert_eq!(fut.resume(ready()), Act::Return(Poll::Ready(())));
    assert_eq!(fut.drop(), Some(9));
}

#[test]
fn graceful_stop_drains_and_finishes() {
    let mut fut = running();
    fut.ctx().stream_cache.push("s");
    fut.resume(woken(None));
    assert_eq!(fut.resume(nothing()), Act::PollRecv);
    assert_eq!(
        fut.resume(event(Poll::Ready(Some(ActorMessage::State(ActorState::StopGraceful, 9))))),
        Act::CloseRecv
    );
    assert_eq!(fut.resume(done()), Act::PollRecv);
    assert!(!fut.is_running());
    assert_eq!(
        fut.resume(event(Poll::Ready(Some(ActorMessage::Ref("a"))))),
        Act::HandleRef("a")
    );
    assert_eq!(fut.resume(built("ta")), Act::Enqueue(0));
    assert_eq!(fut.resume(done()), Act::PollRecv);
    assert_eq!(fut.resume(event(Poll::Ready(None))), Act::PopWake);
    assert_eq!(fut.resume(woken(Some(0))), Act::PollTask(0));
    assert_eq!(fut.resume(pending()), Act::WakeSelf);
    // The stream is not polled any more.
    assert_eq!(fut.resume(done()), Act::PollRecv);
    assert_eq!(fut.resume(event(Poll::Ready(None))), Act::Return(Poll::Pending));
    assert_eq!(fut.poll::<&'static str>(), Act::PopWake);
    assert_eq!(fut.resume(woken(Some(0))), Act::PollTask(0));
    assert_eq!(fut.resume(ready()), Act::WakeSelf);
    assert_eq!(fut.resume(done()), Act::PollRecv);
    assert_eq!(fut.resume(event(Poll::Ready(None))), Act::OnStop);
    assert_eq!(fut.resume(built("on_stop")), Act::PollExclusive);
    assert_eq!(fut.resume(ready()), Act::Return(Poll::Ready(())));
    assert_eq!(fut.drop(), Some(9));
}

#[test]
fn end_of_the_channel_stops_an_idle_actor() {
    let mut fut = running();
    assert_eq!(fut.resume(woken(None)), Act::PollRecv);
    assert_eq!(fut.resume(event(Poll::Ready(None))), Act::OnStop);
    fut.resume(built("on_stop"));
    assert_eq!(fut.resume(ready()), Act::Return(Poll::Ready(())));
    assert_eq!(fut.drop(), None);
}
