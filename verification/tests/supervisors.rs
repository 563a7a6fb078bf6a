use std::time::Duration;

use actix_async::actor::ActorState;
use actix_async::context::Context;
use actix_async::context_future::{Action, ContextFuture, Event};
use actix_async::message::ActorMessage;
use actix_async::supervisor::{recover, supervise, Supervised, Supervisor};
use actix_async::util::futures::Poll;
use actix_async::worker_pool::{
    poll_worker, Joined, Stop, Supervisor as Pool, SupervisorBuilder, Work,
};

#[test]
fn supervisor_bound() {
    fn send_sync_clone<T: Send + Sync + Clone + 'static>() {}

    send_sync_clone::<Supervisor<usize>>();
}

#[test]
fn instances_are_placed_round_robin() {
    let supervisor = Supervisor::new(vec!["a", "b", "c"]);
    let mut next = 0;
    let (mut channel, _, placements) =
        supervisor.clone().start_in_arbiter::<u32, u8>(&mut next, 256, 5);
    let arbiters: Vec<usize> = placements.iter().map(|p| p.arbiter).collect();
    assert_eq!(arbiters, vec![0, 1, 2, 0, 1]);
    assert_eq!(next, 5);
    let (_, _, placements2) = supervisor.start_in_arbiter::<u32, u8>(&mut next, 256, 2);
    assert_eq!(placements2[0].arbiter, 2);
    assert_eq!(placements2[1].arbiter, 0);

    // The channel lives as long as an instance does.
    let mut woken = Vec::new();
    let mut sender = None;
    for placement in placements {
        sender = placement.rx.as_sender(&mut channel);
        assert!(sender.is_some());
        placement.rx.drop(&mut channel, &mut woken);
    }
    assert!(sender.unwrap().do_send(&mut channel, 1, &mut woken).is_err());
}

#[test]
fn count_of_instances_wraps_around() {
    let supervisor = Supervisor::new(vec![0, 1]);
    let mut next = usize::MAX;
    let (_, _, placements) = supervisor.start_in_arbiter::<u32, u8>(&mut next, 1, 2);
    assert_eq!(placements[0].arbiter, 1);
    assert_eq!(placements[1].arbiter, 0);
    assert_eq!(next, 1);
}

type Fut = ContextFuture<&'static str, &'static str, &'static str, u8>;

fn running_with_a_task() -> Fut {
    let mut fut: Fut = ContextFuture::new(Context::new(), 4);
    fut.poll::<&'static str>();
    fut.resume::<&'static str>(Event::Built("on_start"));
    fut.resume::<&'static str>(Event::Polled(Poll::Ready(())));
    fut.resume::<&'static str>(Event::Woken(None));
    fut.resume(Event::Message(Poll::Ready(Some(ActorMessage::Ref("m")))));
    fut.resume::<&'static str>(Event::Built("t"));
    fut
}

#[test]
fn running_actor_is_recovered() {
    let mut fut = running_with_a_task();
    assert_eq!(supervise(&fut, Poll::Pending), Supervised::Return(Poll::Pending));
    assert_eq!(supervise(&fut, Poll::Ready(())), Supervised::PollAgain);
    fut.ctx().future_cache.push("f");
    fut.ctx().stream_cache.push("s");
    assert!(fut.task(0).is_some());
    assert!(recover(&mut fut));
    assert!(fut.task(0).is_none());
    assert!(fut.ctx().future_cache.is_empty());
    assert!(fut.ctx().stream_cache.is_empty());
    assert!(fut.is_running());
    assert_eq!(fut.poll::<&'static str>(), Action::PopWake);
}

#[test]
fn stopped_actor_is_not_recovered() {
    let mut fut = running_with_a_task();
    fut.ctx().state = ActorState::StopGraceful;
    assert_eq!(supervise(&fut, Poll::Ready(())), Supervised::Return(Poll::Ready(())));
    assert!(!recover(&mut fut));
    assert!(fut.task(0).is_some());
}

#[test]
fn actor_that_is_stopped_at_once_ends() {
    let mut fut = running_with_a_task();
    assert_eq!(fut.resume::<&'static str>(Event::Done), Action::PollRecv);
    let order = Event::Message(Poll::Ready(Some(ActorMessage::State(ActorState::Stop, 2))));
    assert_eq!(fut.resume::<&'static str>(order), Action::CloseRecv);
    assert_eq!(fut.resume::<&'static str>(Event::Done), Action::OnStop);
    assert!(!fut.is_running());
    assert_eq!(fut.resume::<&'static str>(Event::Built("on_stop")), Action::PollExclusive);
    assert_eq!(
        fut.resume::<&'static str>(Event::Polled(Poll::Ready(()))),
        Action::Return(Poll::Ready(()))
    );
    assert_eq!(supervise(&fut, Poll::Ready(())), Supervised::Return(Poll::Ready(())));
    assert!(!recover(&mut fut));
}

#[test]
fn pool_settings() {
    let builder = SupervisorBuilder::new();
    assert_eq!(builder.workers, 4);
    assert_eq!(builder.shutdown_timeout, Duration::from_secs(30));
    let builder = Pool::<u8>::builder()
        .workers(2)
        .shutdown_timeout(Duration::from_millis(9));
    assert_eq!(builder.workers, 2);
    assert_eq!(builder.shutdown_timeout, Duration::from_millis(9));
}

#[test]
fn pool_stops_once() {
    let (mut pool, mut channel, receivers) =
        SupervisorBuilder::new().workers(3).build::<u32, &'static str, u8>();
    assert_eq!(receivers.len(), 3);
    pool.add_worker("a");
    pool.add_worker("b");
    let mut woken = Vec::new();
    match pool.stop(&mut channel, &mut woken) {
        Stop::Join(handles, timeout) => {
            assert_eq!(handles, vec!["a", "b"]);
            assert_eq!(timeout, Duration::from_secs(30));
        }
        Stop::Return(_) => panic!("there are workers"),
    }
    assert!(Pool::<u8>::stopped(Joined::Ended));
    assert!(!Pool::<u8>::stopped(Joined::TimedOut));
    assert_eq!(pool.stop(&mut channel, &mut woken), Stop::Return(false));
}

#[test]
fn pool_without_workers_has_nothing_to_stop() {
    let (mut pool, mut channel, _) =
        SupervisorBuilder::new().build::<u32, &'static str, u8>();
    let mut woken = Vec::new();
    assert_eq!(pool.stop(&mut channel, &mut woken), Stop::Return(false));
}

#[test]
fn pool_starts_instances() {
    let (pool, _, _) = SupervisorBuilder::new().build::<u32, &'static str, u8>();
    let (mut channel, addr, receivers) = pool.start::<u32, u8>(16, 2);
    assert_eq!(receivers.len(), 2);
    let mut woken = Vec::new();
    addr.drop(&mut channel, &mut woken);
    for rx in receivers {
        assert!(rx.as_sender(&mut channel).is_none());
    }
}

#[test]
fn worker_takes_jobs_until_the_end() {
    assert_eq!(poll_worker(Poll::Ready(Some(3))), Work::Spawn(3));
    assert_eq!(poll_worker::<u8>(Poll::Pending), Work::Return(Poll::Pending));
    assert_eq!(poll_worker::<u8>(Poll::Ready(None)), Work::Return(Poll::Ready(())));
}
