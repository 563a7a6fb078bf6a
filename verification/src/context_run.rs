//! A context that waits for its channel, its tasks, its streams and its delayed messages at once.
//!
//! A `ContextFuture` decides and somebody else acts: `run` and `resume` return what is to be done
//! next, and `resume` is told what came of it, until a poll of the context is over.

use vstd::prelude::*;

use crate::actor::ActorState;
use crate::context::Context;
use crate::message::ActorMessage;
use crate::util::futures::Poll;
use crate::util::slab::Slab;

verus! {

/// The tasks that a context waits for alone.
#[derive(Clone, Copy, Debug, PartialEq, Eq, Structural)]
pub enum Stage {
    /// The task of `on_start`.
    OnStart,
    /// The task of a message to the exclusive handler.
    Exclusive,
    /// The task of `on_stop`.
    OnStop,
}

/// How far a context is between two polls of it.
#[derive(Clone, Copy, Debug, PartialEq, Eq, Structural)]
pub enum Phase {
    /// It was not polled yet.
    New,
    /// It waits for a task alone.
    Await(Stage),
    /// It waits for whatever comes first: the channel, if `recv`, the concurrent tasks, if
    /// `tasks`, and streams and delayed messages, if `others`.
    Select { recv: bool, tasks: bool, others: bool },
    /// It has yielded, and starts over.
    Yield,
    /// The channel was closed and is over, and it waits for the concurrent tasks to finish.
    Resolve,
    /// It has yielded, and goes on to wait for the concurrent tasks.
    ResolveYield,
    /// It is over.
    Finished,
}

/// What a context waits for during a poll of it.
#[derive(Clone, Copy, Debug, PartialEq, Eq, Structural)]
pub enum Step {
    /// The next poll.
    Idle,
    /// The task of the stage.
    Hook(Stage),
    /// A poll of the task of the stage.
    PollHook(Stage),
    /// A poll of the channel.
    Recv,
    /// The index of a task that was woken. So many tasks were there, and so many were looked at.
    Wake { len: usize, polled: usize },
    /// A poll of the task `idx`.
    Task { idx: usize, len: usize, polled: usize },
    /// A poll of a stream.
    Stream(usize),
    /// A poll of a delayed message.
    Future(usize),
    /// The task for a message to the concurrent handler.
    HandleRef,
    /// The registration of a new task as one to be polled.
    Enqueue,
    /// The end of the channel, after the order to stop gracefully.
    Close,
    /// The number of addresses, after the end of the channel.
    Over,
}

/// What is to be done next.
#[derive(Debug, PartialEq, Eq)]
pub enum Action<M, N> {
    /// Call the actor's `on_start`.
    OnStart,
    /// Hand the message to the exclusive handler.
    HandleMut(M),
    /// Call the actor's `on_stop`.
    OnStop,
    /// Poll the task that the context waits for alone.
    PollExclusive,
    /// Poll the channel.
    PollRecv,
    /// Take the index of a woken task from the wake queue.
    PopWake,
    /// Poll the concurrent task under this index, with a waker that puts the index into the wake
    /// queue.
    PollTask(usize),
    /// Poll the stream at this place.
    PollStream(usize),
    /// Poll the delayed message at this place.
    PollFuture(usize),
    /// Hand the message to the concurrent handler.
    HandleRef(M),
    /// Put the index into the wake queue.
    Enqueue(usize),
    /// Close the channel.
    CloseRecv,
    /// Count the addresses of the actor.
    CountAddrs,
    /// The poll of the context is over, and the context is to be polled again at once.
    Yield,
    /// The poll of the context is over: it is pending.
    Pending,
    /// The context is over, and somebody is to be notified.
    Finish(Option<N>),
}

/// What came of an action.
#[derive(Debug, PartialEq, Eq)]
pub enum Event<M, T, N> {
    /// The task that a handler or a hook of the actor returned.
    Built(T),
    /// The outcome of a poll of a task.
    Polled(Poll<()>),
    /// The outcome of a poll of the channel, a stream or a delayed message.
    Message(Poll<Option<ActorMessage<M, N>>>),
    /// The index that was taken from the wake queue, if there was one to be had.
    Woken(Option<usize>),
    /// The number of addresses.
    Addrs(usize),
    /// It is done.
    Done,
}

/// What a context is: the part that its actor can reach, the message that waits for the exclusive
/// handler, the task that it waits for alone, the concurrent tasks and how many of them there may
/// be, whom to notify of the end, how far it is and what it waits for.
pub ghost struct RunView<M, T, F, S, N> {
    pub ctx: crate::context::ContextData<F, S>,
    pub message: Option<M>,
    pub exclusive: Option<T>,
    pub tasks: crate::util::slab::SlabView<T>,
    pub size_hint: usize,
    pub notify: Option<N>,
    pub phase: Phase,
    pub at: Step,
}

impl<M, T, F, S, N> RunView<M, T, F, S, N> {
    /// What a context waits for fits how far it is.
    pub open spec fn wf(self) -> bool {
        &&& self.tasks.wf()
        &&& self.exclusive is Some <==> self.at is PollHook || self.at is Idle && self.phase is Await
        &&& self.phase is New || self.phase is Await ==> self.tasks.is_vacant()
        &&& match self.at {
            Step::Idle => true,
            Step::Hook(_) => self.phase !is Finished && self.phase !is Await
                && self.tasks.is_vacant(),
            Step::PollHook(_) => self.phase !is Finished && self.tasks.is_vacant(),
            Step::Recv => self.phase matches Phase::Select { recv: true, .. } && self.message is None,
            Step::Wake { len, polled } => {
                &&& self.phase is Resolve || (self.phase matches Phase::Select { tasks: true, .. })
                &&& len == 0 || polled < len
            },
            Step::Task { idx, len, polled } => {
                &&& self.phase is Resolve || (self.phase matches Phase::Select { tasks: true, .. })
                &&& len == 0 || polled < len
                &&& self.tasks.occupied(idx as int)
            },
            Step::Stream(i) => {
                &&& self.phase matches Phase::Select { others: true, .. }
                &&& i < self.ctx.streams.len()
                &&& self.message is None
            },
            Step::Future(i) => {
                &&& self.phase matches Phase::Select { others: true, .. }
                &&& i < self.ctx.futures.len()
                &&& self.message is None
            },
            Step::HandleRef | Step::Enqueue => self.phase is Select && self.message is None,
            Step::Close | Step::Over => (self.phase matches Phase::Select { recv: true, .. })
                && self.message is None,
        }
        &&& self.at !is Hook && self.at !is PollHook && (self.phase is Resolve
            || self.phase is ResolveYield) ==> self.message is None
        &&& self.at !is Hook && self.at !is PollHook && self.message is Some ==> !(
        self.phase matches Phase::Select { recv: true, .. }) && !(
        self.phase matches Phase::Select { others: true, .. })
        &&& self.at !is Hook && self.at !is PollHook && self.at !is Enqueue && (
        self.phase matches Phase::Select { recv: true, .. }) ==> self.tasks.count()
            < self.size_hint
    }

    /// Whether the event is one that can follow the action.
    pub open spec fn expects(self, event: Event<M, T, N>) -> bool {
        match self.at {
            Step::Idle => false,
            Step::Hook(_) | Step::HandleRef => event is Built,
            Step::PollHook(_) | Step::Task { .. } => event is Polled,
            Step::Recv => event is Message,
            Step::Stream(_) | Step::Future(_) => {
                &&& event matches Event::Message(poll)
                &&& !(poll matches Poll::Ready(Some(ActorMessage::State(_, _))))
            },
            Step::Wake { .. } => event is Woken,
            Step::Enqueue | Step::Close => event is Done,
            Step::Over => event is Addrs,
        }
    }

    /// The context waits for something else.
    pub open spec fn wait(self, at: Step) -> RunView<M, T, F, S, N> {
        RunView { at, ..self }
    }

    /// The poll of the context is over, and the next one finds it so far.
    pub open spec fn rest(self, phase: Phase) -> RunView<M, T, F, S, N> {
        RunView { at: Step::Idle, phase, ..self }
    }

    /// The state of the actor changes.
    pub open spec fn with_actor(self, actor: ActorState) -> RunView<M, T, F, S, N> {
        RunView { ctx: crate::context::ContextData { actor, ..self.ctx }, ..self }
    }

    /// The concurrent tasks are dropped.
    pub open spec fn without_tasks(self) -> RunView<M, T, F, S, N> {
        RunView {
            tasks: crate::util::slab::SlabView { slots: Seq::empty(), free: Seq::empty() },
            ..self
        }
    }

    /// The outer loop: a message for the exclusive handler goes first.
    pub open spec fn outer_loop(self) -> (RunView<M, T, F, S, N>, Action<M, N>) {
        let v = self.without_tasks();
        match self.message {
            Some(m) => (
                RunView { message: None, ..v }.wait(Step::Hook(Stage::Exclusive)),
                Action::HandleMut(m),
            ),
            None => v.inner_loop(),
        }
    }

    /// The inner loop: an actor that is stopped at once leaves it. A message for the exclusive
    /// handler waits for the concurrent tasks, and meanwhile nothing else comes in. An actor that
    /// stops gracefully takes nothing but the messages that its channel still holds.
    pub open spec fn inner_loop(self) -> (RunView<M, T, F, S, N>, Action<M, N>) {
        match (self.ctx.actor, self.message) {
            (ActorState::Stop, _) => self.leave(),
            (_, Some(m)) if self.tasks.is_vacant() => (
                RunView { message: None, ..self.without_tasks() }.wait(
                    Step::Hook(Stage::Exclusive),
                ),
                Action::HandleMut(m),
            ),
            // An actor that never takes a message from its channel has none to drain.
            (ActorState::StopGraceful, None) if self.size_hint == 0 => self.resolve_loop(),
            (actor, message) => {
                let phase = Phase::Select {
                    recv: message is None && self.tasks.count() < self.size_hint,
                    tasks: !self.tasks.is_vacant(),
                    others: message is None && actor is Running,
                };
                RunView { phase, ..self }.select_turn()
            },
        }
    }

    /// The channel is over. For an actor that is running this comes of the loss of its last address,
    /// or because another instance of it, with which it shares the channel, was told to stop.
    pub open spec fn drained(self) -> (RunView<M, T, F, S, N>, Action<M, N>) {
        match self.ctx.actor {
            ActorState::Running => (self.wait(Step::Over), Action::CountAddrs),
            ActorState::StopGraceful => self.resolve_loop(),
            ActorState::Stop => self.leave(),
        }
    }

    /// An actor without addresses stops at once. One that has addresses was told to stop, and
    /// finishes its tasks.
    pub open spec fn over(self, addrs: usize) -> (RunView<M, T, F, S, N>, Action<M, N>) {
        if addrs == 0 {
            self.with_actor(ActorState::Stop).leave()
        } else {
            self.with_actor(ActorState::StopGraceful).resolve_loop()
        }
    }

    /// The concurrent tasks that were started are finished before the context ends.
    pub open spec fn resolve_loop(self) -> (RunView<M, T, F, S, N>, Action<M, N>) {
        if self.tasks.is_vacant() {
            self.leave()
        } else {
            RunView { phase: Phase::Resolve, ..self }.wake_turn()
        }
    }

    /// The loops are over.
    pub open spec fn leave(self) -> (RunView<M, T, F, S, N>, Action<M, N>) {
        self.without_tasks().stop_turn()
    }

    /// The hook of the actor for the end.
    pub open spec fn stop_turn(self) -> (RunView<M, T, F, S, N>, Action<M, N>) {
        (self.wait(Step::Hook(Stage::OnStop)), Action::OnStop)
    }

    /// Whatever comes first: the channel has the first say.
    pub open spec fn select_turn(self) -> (RunView<M, T, F, S, N>, Action<M, N>) {
        if self.phase matches Phase::Select { recv: true, .. } {
            (self.wait(Step::Recv), Action::PollRecv)
        } else {
            self.select_tasks()
        }
    }

    /// Then the concurrent tasks.
    pub open spec fn select_tasks(self) -> (RunView<M, T, F, S, N>, Action<M, N>) {
        if self.phase matches Phase::Select { tasks: true, .. } {
            self.wake_turn()
        } else {
            self.stream_turn(0)
        }
    }

    /// The concurrent tasks that were woken.
    pub open spec fn wake_turn(self) -> (RunView<M, T, F, S, N>, Action<M, N>) {
        (self.wait(Step::Wake { len: self.tasks.count() as usize, polled: 0 }), Action::PopWake)
    }

    /// One more task was looked at. After as many as there were the context yields.
    pub open spec fn looked_at(self, len: usize, polled: usize) -> (
        RunView<M, T, F, S, N>,
        Action<M, N>,
    ) {
        if polled.wrapping_add(1) == len {
            (
                self.rest(
                    if self.phase is Resolve {
                        Phase::ResolveYield
                    } else {
                        Phase::Yield
                    },
                ),
                Action::Yield,
            )
        } else {
            (self.wait(Step::Wake { len, polled: polled.wrapping_add(1) }), Action::PopWake)
        }
    }

    /// Streams and delayed messages have their turn, unless the actor was stopped meanwhile.
    pub open spec fn takes_others(self) -> bool {
        (self.phase matches Phase::Select { others: true, .. }) && self.ctx.actor is Running
    }

    /// The streams from place `i` on, then the delayed messages.
    pub open spec fn stream_turn(self, i: int) -> (RunView<M, T, F, S, N>, Action<M, N>) {
        if self.takes_others() && i < self.ctx.streams.len() {
            (self.wait(Step::Stream(i as usize)), Action::PollStream(i as usize))
        } else {
            self.future_turn(0)
        }
    }

    /// The delayed messages from place `i` on. If nothing came the context is pending.
    pub open spec fn future_turn(self, i: int) -> (RunView<M, T, F, S, N>, Action<M, N>) {
        if self.takes_others() && i < self.ctx.futures.len() {
            (self.wait(Step::Future(i as usize)), Action::PollFuture(i as usize))
        } else {
            (self.wait(Step::Idle), Action::Pending)
        }
    }

    /// A message came.
    pub open spec fn received(self, msg: ActorMessage<M, N>) -> (
        RunView<M, T, F, S, N>,
        Action<M, N>,
    ) {
        match msg {
            ActorMessage::Ref(m) => (self.wait(Step::HandleRef), Action::HandleRef(m)),
            ActorMessage::Mut(m) => RunView { message: Some(m), ..self }.inner_loop(),
            ActorMessage::State(ActorState::StopGraceful, notify) => (
                RunView { notify: Some(notify), ..self }.with_actor(ActorState::StopGraceful).wait(
                    Step::Close,
                ),
                Action::CloseRecv,
            ),
            ActorMessage::State(state, notify) => {
                RunView { notify: Some(notify), ..self }.with_actor(state).inner_loop()
            },
        }
    }

    /// The task that the context waited for alone is finished.
    pub open spec fn awaited(self, stage: Stage) -> (RunView<M, T, F, S, N>, Action<M, N>) {
        let v = RunView { exclusive: None, phase: Phase::Yield, ..self };
        match stage {
            Stage::OnStart => v.with_actor(ActorState::Running).outer_loop(),
            Stage::Exclusive => v.outer_loop(),
            Stage::OnStop => (
                RunView { notify: None, ..v }.rest(Phase::Finished),
                Action::Finish(self.notify),
            ),
        }
    }

    /// The context after a poll of it began, and what is to be done first.
    pub open spec fn ran(self) -> (RunView<M, T, F, S, N>, Action<M, N>) {
        match self.phase {
            Phase::New => (self.wait(Step::Hook(Stage::OnStart)), Action::OnStart),
            Phase::Await(stage) => (self.wait(Step::PollHook(stage)), Action::PollExclusive),
            Phase::Select { .. } => self.select_turn(),
            Phase::Yield => self.inner_loop(),
            Phase::Resolve => self.wake_turn(),
            Phase::ResolveYield => self.resolve_loop(),
            Phase::Finished => (self, Action::Pending),
        }
    }

    /// The context after an event, and what is to be done next.
    pub open spec fn resumed(self, event: Event<M, T, N>) -> (
        RunView<M, T, F, S, N>,
        Action<M, N>,
    ) {
        match (self.at, event) {
            (Step::Hook(stage), Event::Built(task)) => (
                RunView { exclusive: Some(task), ..self }.wait(Step::PollHook(stage)),
                Action::PollExclusive,
            ),
            (Step::PollHook(stage), Event::Polled(Poll::Ready(_))) => self.awaited(stage),
            (Step::PollHook(stage), _) => (self.rest(Phase::Await(stage)), Action::Pending),
            (Step::Recv, Event::Message(Poll::Ready(Some(msg)))) => self.received(msg),
            (Step::Recv, Event::Message(Poll::Ready(None))) => self.drained(),
            (Step::Recv, _) => self.select_tasks(),
            (Step::Wake { len, polled }, Event::Woken(Some(idx))) => {
                if self.tasks.occupied(idx as int) {
                    (self.wait(Step::Task { idx, len, polled }), Action::PollTask(idx))
                } else {
                    self.looked_at(len, polled)
                }
            },
            (Step::Wake { .. }, _) => {
                if self.phase is Resolve {
                    (self.wait(Step::Idle), Action::Pending)
                } else {
                    self.stream_turn(0)
                }
            },
            (Step::Task { idx, len, polled }, Event::Polled(poll)) => {
                let tasks = if poll is Ready {
                    self.tasks.removed(idx)
                } else {
                    self.tasks
                };
                RunView { tasks, ..self }.looked_at(len, polled)
            },
            (Step::Stream(_), Event::Message(Poll::Ready(Some(msg)))) => self.received(msg),
            (Step::Stream(i), Event::Message(Poll::Ready(None))) => {
                let streams = crate::context_future::swap_removed(self.ctx.streams, i as int);
                RunView {
                    ctx: crate::context::ContextData { streams, ..self.ctx },
                    ..self
                }.stream_turn(i as int)
            },
            (Step::Stream(i), _) => self.stream_turn(i + 1),
            (Step::Future(i), Event::Message(Poll::Ready(msg))) => {
                let futures = crate::context_future::swap_removed(self.ctx.futures, i as int);
                let v = RunView {
                    ctx: crate::context::ContextData { futures, ..self.ctx },
                    ..self
                };
                match msg {
                    Some(msg) => v.received(msg),
                    None => v.future_turn(i as int),
                }
            },
            (Step::Future(i), _) => self.future_turn(i + 1),
            (Step::HandleRef, Event::Built(task)) => (
                RunView { tasks: self.tasks.inserted(task), ..self }.wait(Step::Enqueue),
                Action::Enqueue(self.tasks.next_key() as usize),
            ),
            (Step::Enqueue, _) => self.inner_loop(),
            (Step::Close, _) => self.inner_loop(),
            (Step::Over, Event::Addrs(addrs)) => self.over(addrs),
            _ => (self.wait(Step::Idle), Action::Pending),
        }
    }

    /// A message goes to the exclusive handler, and its task is polled, only when no concurrent
    /// task is left.
    pub proof fn law_exclusive_task_runs_alone(self, event: Event<M, T, N>)
        requires
            self.wf(),
            self.expects(event),
        ensures
            ({
                let (post, action) = self.resumed(event);
                action is HandleMut || action is PollExclusive ==> post.tasks.is_vacant()
            }),
    {
    }

    /// While a message waits for the exclusive handler nothing new comes in: not the channel, no
    /// stream and no delayed message is polled.
    pub proof fn law_nothing_new_beside_an_exclusive_message(self, event: Event<M, T, N>)
        requires
            self.wf(),
            self.expects(event),
        ensures
            ({
                let (post, action) = self.resumed(event);
                action is PollRecv || action is PollStream || action is PollFuture ==> post.message
                    is None
            }),
    {
    }

    /// No more messages are taken from the channel while as many tasks run as there may be.
    pub proof fn law_size_hint_limits_tasks(self, event: Event<M, T, N>)
        requires
            self.wf(),
            self.expects(event),
        ensures
            ({
                let (post, action) = self.resumed(event);
                action is PollRecv ==> post.tasks.count() < post.size_hint
            }),
    {
    }

    /// On the order to stop at once the next thing is the actor's `on_stop`: tasks are dropped, and
    /// so is a message that waits. Whoever gave the order is to be notified.
    pub proof fn law_forced_stop(self, notify: N)
        requires
            self.wf(),
            self.at is Recv,
        ensures
            ({
                let (post, action) = self.resumed(
                    Event::Message(
                        Poll::Ready(Some(ActorMessage::State(ActorState::Stop, notify))),
                    ),
                );
                &&& action is OnStop
                &&& post.tasks.is_vacant()
                &&& post.notify == Some(notify)
            }),
    {
    }

    /// A message from the channel goes to the handler that it is for: to the concurrent one at once,
    /// and to the exclusive one at once or after the concurrent tasks. This holds also while an
    /// actor that stops gracefully drains its channel.
    pub proof fn law_message_reaches_its_handler(self, m: M)
        requires
            self.wf(),
            self.at is Recv,
            self.ctx.actor !is Stop,
        ensures
            self.resumed(Event::Message(Poll::Ready(Some(ActorMessage::Ref(m))))).1
                == Action::<M, N>::HandleRef(m),
            ({
                let (post, action) = self.resumed(
                    Event::Message(Poll::Ready(Some(ActorMessage::Mut(m)))),
                );
                action == Action::<M, N>::HandleMut(m) || post.message == Some(m)
                    && !post.tasks.is_vacant()
            }),
    {
    }

    /// A message that waits for the exclusive handler is kept until it is handed to it, which an
    /// actor that is stopped at once does not come to.
    pub proof fn law_waiting_message_is_handled(self, event: Event<M, T, N>, m: M)
        requires
            self.wf(),
            self.expects(event),
            self.message == Some(m),
        ensures
            ({
                let (post, action) = self.resumed(event);
                post.message == Some(m) || action == Action::<M, N>::HandleMut(m)
            }),
    {
    }

    /// A concurrent task stays, and is the same, until a poll of it is ready, unless the actor is
    /// stopped at once or has lost its last address.
    pub proof fn law_task_runs_to_its_end(self, event: Event<M, T, N>, idx: int)
        requires
            self.wf(),
            self.expects(event),
            self.tasks.occupied(idx),
            self.ctx.actor !is Stop,
            !(event matches Event::Message(
                Poll::Ready(Some(ActorMessage::State(ActorState::Stop, _))),
            )),
            event != Event::<M, T, N>::Addrs(0),
        ensures
            ({
                let post = self.resumed(event).0;
                ||| post.tasks.occupied(idx) && post.tasks.slots[idx] == self.tasks.slots[idx]
                ||| (self.at matches Step::Task { idx: i, .. } && i == idx) && (
                event matches Event::Polled(Poll::Ready(_)))
            }),
    {
    }

    /// The start of a poll keeps what there is: the concurrent tasks, unless the actor is stopped at
    /// once, and a message that waits for the exclusive handler, until it is handed to it. Streams
    /// and delayed messages are polled only while the actor is running.
    pub proof fn law_poll_keeps_what_there_is(self, idx: int, m: M)
        requires
            self.wf(),
            self.at is Idle,
        ensures
            ({
                let (post, action) = self.ran();
                &&& self.tasks.occupied(idx) && self.ctx.actor !is Stop ==> post.tasks.occupied(idx)
                    && post.tasks.slots[idx] == self.tasks.slots[idx]
                &&& self.message == Some(m) ==> post.message == Some(m) || action == Action::<
                    M,
                    N,
                >::HandleMut(m)
                &&& action is PollStream || action is PollFuture ==> post.ctx.actor is Running
            }),
    {
    }

    /// Streams and delayed messages are polled only while the actor is running.
    pub proof fn law_stopped_context_takes_no_streams(self, event: Event<M, T, N>)
        requires
            self.wf(),
            self.expects(event),
        ensures
            ({
                let (post, action) = self.resumed(event);
                action is PollStream || action is PollFuture ==> post.ctx.actor is Running
            }),
    {
    }

    /// On the order to stop gracefully the channel is closed, and the next thing is to take the
    /// messages out that it still holds. Whoever gave the order is to be notified.
    pub proof fn law_graceful_stop_drains_the_channel(self, notify: N)
        requires
            self.wf(),
            self.at is Recv,
        ensures
            ({
                let (closed, first) = self.resumed(
                    Event::Message(
                        Poll::Ready(Some(ActorMessage::State(ActorState::StopGraceful, notify))),
                    ),
                );
                let (draining, second) = closed.resumed(Event::Done);
                &&& first is CloseRecv
                &&& closed.expects(Event::Done)
                &&& second is PollRecv
                &&& draining.ctx.actor is StopGraceful
                &&& draining.tasks == self.tasks
                &&& draining.notify == Some(notify)
            }),
    {
    }

    /// A context whose actor is not stopped at once, and takes messages from its channel at all,
    /// leaves its loops for three reasons only: on the order to stop at once, when the channel is
    /// over because no address is left, or when it is over because it was closed and no task is
    /// left.
    pub proof fn law_running_ends(self, event: Event<M, T, N>)
        requires
            self.wf(),
            self.expects(event),
            self.ctx.actor !is Stop,
            0 < self.size_hint,
            self.resumed(event).1 is OnStop,
        ensures
            self.message is None,
            match event {
                Event::Message(Poll::Ready(Some(ActorMessage::State(state, _)))) => {
                    self.at is Recv && state is Stop
                },
                Event::Message(Poll::Ready(None)) => {
                    self.at is Recv && self.ctx.actor is StopGraceful && self.tasks.is_vacant()
                },
                Event::Addrs(addrs) => self.at is Over && (addrs == 0 || self.tasks.is_vacant()),
                _ => false,
            },
    {
    }

    /// A context waits for its last tasks only once the channel is over.
    pub proof fn law_resolving_starts_after_the_channel(self, event: Event<M, T, N>)
        requires
            self.wf(),
            self.expects(event),
            0 < self.size_hint,
            self.phase !is Resolve,
            self.resumed(event).0.phase is Resolve,
        ensures
            self.at is Over || self.at is Recv && (event matches Event::Message(Poll::Ready(None))),
    {
    }

    /// A context learns of the loss of its addresses only when the channel is over.
    pub proof fn law_addresses_are_counted_at_the_end(self, event: Event<M, T, N>)
        requires
            self.wf(),
            self.expects(event),
            self.resumed(event).0.at is Over,
        ensures
            self.at is Recv,
            event matches Event::Message(Poll::Ready(None)),
            self.resumed(event).1 is CountAddrs,
    {
    }

    /// When a poll begins, a context whose actor is not stopped at once, and takes messages from
    /// its channel at all, leaves its loops only if it was waiting for its last tasks and none is
    /// left, and it waits for its last tasks only if it did so before.
    pub proof fn law_poll_does_not_end_the_loops(self)
        requires
            self.wf(),
            self.at is Idle,
            self.ctx.actor !is Stop,
            0 < self.size_hint,
        ensures
            self.ran().1 is OnStop ==> self.phase is ResolveYield && self.tasks.is_vacant(),
            self.ran().0.phase is Resolve ==> self.phase is Resolve || self.phase is ResolveYield,
    {
    }

    /// An actor that has lost its last address stops at once: its tasks are dropped, and its
    /// `on_stop` is called.
    pub proof fn law_last_address_stops(self)
        requires
            self.wf(),
            self.at is Recv,
            self.ctx.actor is Running,
        ensures
            ({
                let (over, first) = self.resumed(Event::Message(Poll::Ready(None)));
                let (post, second) = over.resumed(Event::Addrs(0));
                &&& first is CountAddrs
                &&& over.expects(Event::Addrs(0))
                &&& second is OnStop
                &&& post.ctx.actor is Stop
                &&& post.tasks.is_vacant()
            }),
    {
    }

    /// An actor that was told to stop gracefully, or whose channel was closed by another instance of
    /// it, finishes the tasks that were started once the channel is over, and then its `on_stop` is
    /// called.
    pub proof fn law_closed_channel_lets_tasks_finish(self, addrs: usize)
        requires
            self.wf(),
            self.at is Recv,
            self.ctx.actor !is Stop,
            0 < addrs,
        ensures
            ({
                let (over, first) = self.resumed(Event::Message(Poll::Ready(None)));
                let (post, action) = if self.ctx.actor is Running {
                    over.resumed(Event::Addrs(addrs))
                } else {
                    (over, first)
                };
                &&& self.ctx.actor is Running ==> first is CountAddrs
                &&& post.ctx.actor is StopGraceful
                &&& if self.tasks.is_vacant() {
                    action is OnStop
                } else {
                    action is PopWake && post.phase is Resolve && post.tasks == self.tasks
                }
            }),
    {
    }

    /// The tasks that are left when the channel is over are finished: only the wake queue and the
    /// tasks are polled until none is left.
    pub proof fn law_graceful_stop_finishes_tasks(self, event: Event<M, T, N>)
        requires
            self.wf(),
            self.expects(event),
            self.phase is Resolve,
            self.at is Wake || self.at is Task,
        ensures
            ({
                let (post, action) = self.resumed(event);
                &&& action is PopWake || action is PollTask || action is Yield || action is Pending
                &&& post.phase is Resolve || post.phase is ResolveYield
                &&& action is Yield ==> (post.ran().1 is PopWake || post.tasks.is_vacant())
            }),
    {
    }

    /// A delayed message leaves the context when a poll of it is ready, and a stream when it is
    /// over, and at no other time: these are the polls with which they let go of their join handles.
    pub proof fn law_finished_task_leaves(self, event: Event<M, T, N>)
        requires
            self.wf(),
            self.expects(event),
        ensures
            self.resumed(event).0.ctx.futures == (match (self.at, event) {
                (Step::Future(i), Event::Message(Poll::Ready(_))) => crate::context_future::swap_removed(
                    self.ctx.futures,
                    i as int,
                ),
                _ => self.ctx.futures,
            }),
            self.resumed(event).0.ctx.streams == (match (self.at, event) {
                (Step::Stream(i), Event::Message(Poll::Ready(None))) => crate::context_future::swap_removed(
                    self.ctx.streams,
                    i as int,
                ),
                _ => self.ctx.streams,
            }),
    {
    }

    /// What a context waits for is the outcome of the action that it asked for, and it takes every
    /// outcome that the action can have: what comes of a poll of a stream or of a delayed message is
    /// no order to stop.
    pub proof fn law_outcome_of_the_action_is_expected(
        self,
        event: Event<M, T, N>,
        task: T,
        polled: Poll<()>,
        message: Poll<Option<ActorMessage<M, N>>>,
        woken: Option<usize>,
        addrs: usize,
    )
        requires
            self.wf(),
            self.at is Idle || self.expects(event),
        ensures
            ({
                let (post, action) = if self.at is Idle {
                    self.ran()
                } else {
                    self.resumed(event)
                };
                match action {
                    Action::OnStart | Action::OnStop | Action::HandleMut(_) | Action::HandleRef(_) => {
                        post.expects(Event::Built(task))
                    },
                    Action::PollExclusive | Action::PollTask(_) => post.expects(Event::Polled(polled)),
                    Action::PollRecv => post.expects(Event::Message(message)),
                    Action::PollStream(_) | Action::PollFuture(_) => {
                        message matches Poll::Ready(Some(ActorMessage::State(_, _))) || post.expects(
                            Event::Message(message),
                        )
                    },
                    Action::PopWake => post.expects(Event::Woken(woken)),
                    Action::Enqueue(_) | Action::CloseRecv => post.expects(Event::Done),
                    Action::CountAddrs => post.expects(Event::Addrs(addrs)),
                    Action::Yield | Action::Pending | Action::Finish(_) => post.at is Idle,
                }
            }),
    {
    }

    /// The outcome of an action is taken for what the action was about: the task, the stream or the
    /// delayed message at the place that was named, and the hook or handler that was called.
    pub proof fn law_outcome_is_taken_for_its_action(self, event: Event<M, T, N>)
        requires
            self.wf(),
            self.at is Idle || self.expects(event),
        ensures
            ({
                let (post, action) = if self.at is Idle {
                    self.ran()
                } else {
                    self.resumed(event)
                };
                match action {
                    Action::OnStart => post.at == Step::Hook(Stage::OnStart),
                    Action::HandleMut(_) => post.at == Step::Hook(Stage::Exclusive),
                    Action::OnStop => post.at == Step::Hook(Stage::OnStop),
                    Action::PollExclusive => post.at is PollHook,
                    Action::PollRecv => post.at is Recv,
                    Action::PopWake => post.at is Wake,
                    Action::PollTask(idx) => post.at matches Step::Task { idx: i, .. } && i == idx,
                    Action::PollStream(i) => post.at == Step::Stream(i),
                    Action::PollFuture(i) => post.at == Step::Future(i),
                    Action::HandleRef(_) => post.at is HandleRef,
                    Action::Enqueue(_) => post.at is Enqueue,
                    Action::CloseRecv => post.at is Close,
                    Action::CountAddrs => post.at is Over,
                    Action::Yield => post.phase is Yield || post.phase is ResolveYield,
                    Action::Pending => post.phase is Await || post.phase is Select
                        || post.phase is Resolve || post.phase is Finished,
                    Action::Finish(_) => post.phase is Finished,
                }
            }),
    {
    }

    /// The task of a message to the concurrent handler is stored, and the index that is put into the
    /// wake queue is the one that it is stored under. No other task was there, and all others stay.
    pub proof fn law_new_task_is_woken(self, task: T, other: int)
        requires
            self.wf(),
            self.at is HandleRef,
            self.tasks.slots.len() <= usize::MAX,
        ensures
            ({
                let (post, action) = self.resumed(Event::Built(task));
                &&& action matches Action::Enqueue(idx)
                &&& post.tasks.occupied(idx as int)
                &&& post.tasks.slots[idx as int] == Some(task)
                &&& !self.tasks.occupied(idx as int)
                &&& other != idx ==> {
                    &&& post.tasks.occupied(other) <==> self.tasks.occupied(other)
                    &&& self.tasks.occupied(other) ==> post.tasks.slots[other]
                        == self.tasks.slots[other]
                }
                &&& post.tasks.count() == self.tasks.count() + 1
            }),
    {
    }

    /// No task comes from nowhere: one that is there afterwards was there before, or is the one that
    /// was just built for the concurrent handler.
    pub proof fn law_no_other_task_appears(self, event: Event<M, T, N>, idx: int)
        requires
            self.wf(),
            self.at is Idle || self.expects(event),
            self.tasks.slots.len() <= usize::MAX,
        ensures
            ({
                let (post, action) = if self.at is Idle {
                    self.ran()
                } else {
                    self.resumed(event)
                };
                post.tasks.occupied(idx) && !(self.tasks.occupied(idx) && self.tasks.slots[idx]
                    == post.tasks.slots[idx]) ==> {
                    &&& self.at is HandleRef
                    &&& action == Action::<M, N>::Enqueue(idx as usize)
                    &&& event == Event::<M, T, N>::Built(post.tasks.slots[idx]->0)
                }
            }),
    {
    }

    /// A concurrent task that is finished leaves, and no other one does. One that is pending stays.
    pub proof fn law_finished_task_is_removed(self, poll: Poll<()>, other: int)
        requires
            self.wf(),
            self.at is Task,
        ensures
            ({
                let idx = self.at->Task_idx as int;
                let post = self.resumed(Event::Polled(poll)).0;
                &&& post.tasks.occupied(idx) <==> poll is Pending
                &&& post.tasks.count() == self.tasks.count() - (if poll is Ready {
                    1int
                } else {
                    0
                })
                &&& other != idx && self.tasks.occupied(other) ==> post.tasks.occupied(other)
                    && post.tasks.slots[other] == self.tasks.slots[other]
            }),
    {
    }

    /// The task that a context waits for alone is the one that was built for the hook or for the
    /// exclusive handler, until a poll of it is ready.
    pub proof fn law_awaited_task_is_the_one_that_was_built(self, event: Event<M, T, N>)
        requires
            self.wf(),
        ensures
            self.at is Idle ==> self.ran().0.exclusive == self.exclusive,
            self.expects(event) ==> self.resumed(event).0.exclusive == (match (self.at, event) {
                (Step::Hook(_), Event::Built(task)) => Some(task),
                (Step::PollHook(_), Event::Polled(Poll::Ready(_))) => None,
                _ => self.exclusive,
            }),
    {
    }

    /// A task that a context waits for alone is polled at once, and in every poll of the context
    /// until it is ready, and it stays the task of the same hook or handler.
    pub proof fn law_awaited_task_is_polled_until_it_is_ready(self, stage: Stage, task: T)
        requires
            self.wf(),
        ensures
            self.at == Step::Hook(stage) ==> {
                let (post, action) = self.resumed(Event::Built(task));
                &&& action is PollExclusive
                &&& post.at == Step::PollHook(stage)
            },
            self.at == Step::PollHook(stage) ==> {
                let (rest, action) = self.resumed(Event::Polled(Poll::Pending));
                let (again, next) = rest.ran();
                &&& action is Pending
                &&& rest.at is Idle
                &&& next is PollExclusive
                &&& again.at == Step::PollHook(stage)
                &&& again.exclusive == self.exclusive
                &&& again.notify == self.notify
                &&& again.message == self.message
                &&& again.ctx == self.ctx
            },
    {
    }

    /// The first thing is the actor's `on_start`, and the actor is running once that is finished. A
    /// context is over once `on_stop` is finished, in whatever poll that is: whoever gave the order
    /// to stop is notified.
    pub proof fn law_hooks_begin_and_end(self)
        requires
            self.wf(),
        ensures
            self.at is Idle && self.phase is New ==> self.ran().1 is OnStart,
            self.at == Step::PollHook(Stage::OnStart) ==> {
                let (post, action) = self.resumed(Event::Polled(Poll::Ready(())));
                &&& post.ctx.actor is Running
                &&& action !is Finish
                &&& action !is OnStart
                &&& action !is OnStop
            },
            self.at == Step::PollHook(Stage::Exclusive) ==> {
                let (post, action) = self.resumed(Event::Polled(Poll::Ready(())));
                &&& action !is Finish
                &&& action !is OnStart
                &&& post.ctx == self.ctx
            },
            self.at == Step::PollHook(Stage::OnStop) ==> {
                let (post, action) = self.resumed(Event::Polled(Poll::Ready(())));
                &&& action == Action::<M, N>::Finish(self.notify)
                &&& post.phase is Finished
            },
    {
    }

    /// Only an order changes whom to notify, until the end.
    pub proof fn law_notify_is_kept(self, event: Event<M, T, N>)
        requires
            self.wf(),
        ensures
            self.at is Idle ==> self.ran().0.notify == self.notify,
            self.expects(event) && !(self.resumed(event).1 is Finish) ==> self.resumed(event).0.notify
                == (match (self.at, event) {
                (
                    Step::Recv,
                    Event::Message(Poll::Ready(Some(ActorMessage::State(_, notify)))),
                ) => Some(notify),
                _ => self.notify,
            }),
    {
    }

    /// The state of the actor changes by an order, by the end of `on_start` and by the end of the
    /// channel, and by nothing else that the context does. How many tasks there may be never
    /// changes.
    pub proof fn law_state_of_the_actor_is_kept(self, event: Event<M, T, N>)
        requires
            self.wf(),
        ensures
            self.at is Idle ==> self.ran().0.ctx == self.ctx && self.ran().0.size_hint
                == self.size_hint,
            self.expects(event) ==> {
                let post = self.resumed(event).0;
                &&& post.size_hint == self.size_hint
                &&& post.ctx.actor == (match (self.at, event) {
                    (
                        Step::Recv,
                        Event::Message(Poll::Ready(Some(ActorMessage::State(state, _)))),
                    ) => state,
                    (Step::PollHook(Stage::OnStart), Event::Polled(Poll::Ready(_))) => {
                        ActorState::Running
                    },
                    (Step::Over, Event::Addrs(addrs)) => if addrs == 0 {
                        ActorState::Stop
                    } else {
                        ActorState::StopGraceful
                    },
                    _ => self.ctx.actor,
                })
            },
    {
    }

    /// A message goes to the handler that it is for, wherever it comes from: the channel, a stream
    /// or a delayed message. The one for the exclusive handler is kept if it has to wait for
    /// concurrent tasks, which are looked at then.
    pub proof fn law_every_message_reaches_its_handler(self, m: M)
        requires
            self.wf(),
            self.at is Recv || self.at is Stream || self.at is Future,
            self.ctx.actor !is Stop,
        ensures
            self.resumed(Event::Message(Poll::Ready(Some(ActorMessage::Ref(m))))).1
                == Action::<M, N>::HandleRef(m),
            ({
                let (post, action) = self.resumed(
                    Event::Message(Poll::Ready(Some(ActorMessage::Mut(m)))),
                );
                if self.tasks.is_vacant() {
                    &&& action == Action::<M, N>::HandleMut(m)
                    &&& post.message is None
                } else {
                    &&& action is PopWake
                    &&& post.message == Some(m)
                }
            }),
    {
    }

    /// An actor that is stopped at once takes nothing more: the next message for the exclusive handler
    /// and the end of the channel lead to its `on_stop`, and so does an order to stop at once. An
    /// order to stop gracefully closes the channel first.
    pub proof fn law_stop_at_once_leads_to_on_stop(self, m: M, notify: N)
        requires
            self.wf(),
        ensures
            (self.at is Recv || self.at is Stream || self.at is Future) && self.ctx.actor is Stop ==> {
                let (post, action) = self.resumed(
                    Event::Message(Poll::Ready(Some(ActorMessage::Mut(m)))),
                );
                action is OnStop && post.tasks.is_vacant()
            },
            self.at is Recv && self.ctx.actor is Stop ==> {
                let (post, action) = self.resumed(Event::Message(Poll::Ready(None)));
                action is OnStop && post.tasks.is_vacant()
            },
            self.at is Recv ==> {
                let (post, action) = self.resumed(
                    Event::Message(
                        Poll::Ready(Some(ActorMessage::State(ActorState::Stop, notify))),
                    ),
                );
                action is OnStop && post.tasks.is_vacant()
            },
            self.at is Recv ==> self.resumed(
                Event::Message(
                    Poll::Ready(Some(ActorMessage::State(ActorState::StopGraceful, notify))),
                ),
            ).1 is CloseRecv,
            self.at is Recv ==> self.resumed(
                Event::Message(
                    Poll::Ready(Some(ActorMessage::State(ActorState::Running, notify))),
                ),
            ).1 is PollRecv,
    {
    }

    /// The message that waits for the exclusive handler is the last one that came for it: it is not
    /// replaced, and handed over once.
    pub proof fn law_message_is_handed_over_once(self, event: Event<M, T, N>)
        requires
            self.wf(),
            self.at is Idle || self.expects(event),
        ensures
            ({
                let (post, action) = if self.at is Idle {
                    self.ran()
                } else {
                    self.resumed(event)
                };
                &&& action matches Action::HandleMut(m) ==> post.message is None && (self.message
                    == Some(m) || event == Event::<M, T, N>::Message(
                    Poll::Ready(Some(ActorMessage::Mut(m))),
                ))
                &&& action !is HandleMut && self.message is Some ==> post.message == self.message
                &&& post.message matches Some(m) ==> self.message == Some(m) || event == Event::<
                    M,
                    T,
                    N,
                >::Message(Poll::Ready(Some(ActorMessage::Mut(m))))
                &&& action matches Action::HandleRef(m) ==> self.at !is Idle && event == Event::<
                    M,
                    T,
                    N,
                >::Message(Poll::Ready(Some(ActorMessage::Ref(m))))
            }),
    {
    }

    /// A woken task is polled, under the index that was taken from the wake queue. After each task
    /// that was looked at, whether it is pending, finished or long gone, the next index is taken;
    /// after as many as there were at first the context yields.
    pub proof fn law_woken_tasks_are_polled(self, event: Event<M, T, N>)
        requires
            self.wf(),
            self.expects(event),
        ensures
            ({
                let (post, action) = self.resumed(event);
                match (self.at, event) {
                    (Step::Wake { len, polled }, Event::Woken(Some(idx))) => {
                        if self.tasks.occupied(idx as int) {
                            &&& action == Action::<M, N>::PollTask(idx)
                            &&& post.at == Step::Task { idx, len, polled }
                            &&& post.phase == self.phase
                        } else if polled + 1 == len {
                            action is Yield
                        } else {
                            len > 0 ==> {
                                &&& action is PopWake
                                &&& post.at == Step::Wake { len, polled: (polled + 1) as usize }
                                &&& post.phase == self.phase
                            }
                        }
                    },
                    (Step::Task { len, polled, .. }, _) => {
                        if polled + 1 == len {
                            action is Yield
                        } else {
                            len > 0 ==> {
                                &&& action is PopWake
                                &&& post.at == Step::Wake { len, polled: (polled + 1) as usize }
                                &&& post.phase == self.phase
                            }
                        }
                    },
                    _ => true,
                }
            }),
            self.at is Wake || self.at is Task ==> (self.resumed(event).1 is Yield
                ==> self.resumed(event).0.phase == (if self.phase is Resolve {
                Phase::ResolveYield
            } else {
                Phase::Yield
            })),
    {
    }

    /// Whenever a context turns to the woken tasks it looks at as many as there are before it
    /// yields.
    pub proof fn law_all_tasks_are_looked_at(self, event: Event<M, T, N>)
        requires
            self.wf(),
            self.at is Idle || self.expects(event),
            self.at !is Wake,
            self.at !is Task,
        ensures
            ({
                let (post, action) = if self.at is Idle {
                    self.ran()
                } else {
                    self.resumed(event)
                };
                action is PopWake ==> post.at == Step::Wake {
                    len: post.tasks.count() as usize,
                    polled: 0,
                }
            }),
    {
    }

    /// In one poll of a context that waits for whatever comes first, everything that it waits for
    /// has its turn: after a channel with nothing to give the woken tasks, if there are tasks, and
    /// after them every stream, one after the other, and every delayed message. Only then the
    /// context is pending.
    pub proof fn law_everything_has_its_turn(self, event: Event<M, T, N>)
        requires
            self.wf(),
            self.expects(event),
            self.phase is Select,
            self.ctx.streams.len() < usize::MAX,
            self.ctx.futures.len() < usize::MAX,
        ensures
            ({
                let (post, action) = self.resumed(event);
                let others = self.phase->others && self.ctx.actor is Running;
                let streams = self.ctx.streams.len();
                let futures = self.ctx.futures.len();
                match (self.at, event) {
                    (Step::Recv, Event::Message(Poll::Pending)) if self.phase->tasks => {
                        action is PopWake
                    },
                    (Step::Recv, Event::Message(Poll::Pending))
                    | (Step::Wake { .. }, Event::Woken(None)) => {
                        if others && streams > 0 {
                            action == Action::<M, N>::PollStream(0)
                        } else if others && futures > 0 {
                            action == Action::<M, N>::PollFuture(0)
                        } else {
                            action is Pending
                        }
                    },
                    (Step::Stream(i), Event::Message(Poll::Pending)) => {
                        if others && i + 1 < streams {
                            action == Action::<M, N>::PollStream((i + 1) as usize)
                        } else if others && futures > 0 {
                            action == Action::<M, N>::PollFuture(0)
                        } else {
                            action is Pending
                        }
                    },
                    (Step::Stream(i), Event::Message(Poll::Ready(None))) => {
                        if others && i + 1 < streams {
                            action == Action::<M, N>::PollStream(i)
                        } else if others && futures > 0 {
                            action == Action::<M, N>::PollFuture(0)
                        } else {
                            action is Pending
                        }
                    },
                    (Step::Future(i), Event::Message(Poll::Pending)) => {
                        if others && i + 1 < futures {
                            action == Action::<M, N>::PollFuture((i + 1) as usize)
                        } else {
                            action is Pending
                        }
                    },
                    (Step::Future(i), Event::Message(Poll::Ready(None))) => {
                        if others && i + 1 < futures {
                            action == Action::<M, N>::PollFuture(i)
                        } else {
                            action is Pending
                        }
                    },
                    _ => true,
                }
            }),
            self.at is Recv && (event matches Event::Message(Poll::Pending)) || self.at is Wake
                && (event matches Event::Woken(None)) || (self.at is Stream || self.at is Future) && (
            event matches Event::Message(Poll::Pending) || event matches Event::Message(
                Poll::Ready(None),
            )) ==> self.resumed(event).0.phase == self.phase,
    {
    }

    /// A context that was pending starts its next poll with what it was waiting for: the channel if
    /// that is one of the things, then the woken tasks, then streams and delayed messages.
    pub proof fn law_poll_goes_on_with_what_was_awaited(self)
        requires
            self.wf(),
            self.at is Idle,
            self.phase is Select,
        ensures
            ({
                let (post, action) = self.ran();
                let others = self.phase->others && self.ctx.actor is Running;
                &&& post.phase == self.phase
                &&& post.tasks == self.tasks
                &&& if self.phase->recv {
                    action is PollRecv
                } else if self.phase->tasks {
                    action is PopWake
                } else if others && self.ctx.streams.len() > 0 {
                    action == Action::<M, N>::PollStream(0)
                } else if others && self.ctx.futures.len() > 0 {
                    action == Action::<M, N>::PollFuture(0)
                } else {
                    action is Pending
                }
            }),
    {
    }

    /// What a context does after it has yielded, and whenever it starts over: an actor that is
    /// stopped at once leaves; a message for the exclusive handler is handed over if it can be alone,
    /// and else waits for the tasks; the channel is polled while there is room for another task; and
    /// streams and delayed messages are waited for beside it while the actor is running.
    pub proof fn law_context_starts_over(self, m: M)
        requires
            self.wf(),
            self.at is Idle,
            self.phase is Yield,
        ensures
            ({
                let (post, action) = self.ran();
                let running = self.ctx.actor is Running;
                let room = self.tasks.count() < self.size_hint;
                &&& self.ctx.actor is Stop ==> action is OnStop
                &&& self.ctx.actor !is Stop ==> {
                    &&& self.message == Some(m) && self.tasks.is_vacant() ==> action == Action::<
                        M,
                        N,
                    >::HandleMut(m)
                    &&& self.message == Some(m) && !self.tasks.is_vacant() ==> action is PopWake
                        && post.phase == (Phase::Select { recv: false, tasks: true, others: false })
                    &&& self.message is None && room ==> action is PollRecv && post.phase == (
                    Phase::Select { recv: true, tasks: !self.tasks.is_vacant(), others: running })
                    &&& self.message is None && !room && 0 < self.size_hint && !self.tasks.is_vacant()
                        ==> action is PopWake && post.phase == (Phase::Select {
                        recv: false,
                        tasks: true,
                        others: running,
                    })
                }
                &&& running && self.message is None && !room && self.tasks.is_vacant() ==> {
                    if self.ctx.streams.len() > 0 {
                        action == Action::<M, N>::PollStream(0)
                    } else if self.ctx.futures.len() > 0 {
                        action == Action::<M, N>::PollFuture(0)
                    } else {
                        action is Pending
                    }
                }
                &&& action is PollRecv || action is PopWake || action is PollStream
                    || action is PollFuture || action is Pending ==> post.tasks == self.tasks
                    && post.message == self.message
            }),
    {
    }

    /// A new task that was put into the wake queue, a channel that was closed on an order, and the
    /// end of a task that was waited for alone make the context start over as after a yield.
    pub proof fn law_starts_over_after(self, event: Event<M, T, N>)
        requires
            self.wf(),
            self.expects(event),
            self.at is Enqueue || self.at is Close || self.at == Step::PollHook(Stage::Exclusive) && (
            event matches Event::Polled(Poll::Ready(_))) || self.at == Step::PollHook(Stage::OnStart)
                && (event matches Event::Polled(Poll::Ready(_))),
            self.at is PollHook ==> self.message is None,
            self.tasks.slots.len() <= usize::MAX,
        ensures
            ({
                let (post, action) = self.resumed(event);
                let v = RunView {
                    exclusive: None,
                    phase: Phase::Yield,
                    at: Step::Idle,
                    ctx: crate::context::ContextData {
                        actor: if self.at == Step::PollHook(Stage::OnStart) {
                            ActorState::Running
                        } else {
                            self.ctx.actor
                        },
                        ..self.ctx
                    },
                    ..self
                };
                let (other, same) = v.ran();
                &&& action == same
                &&& post.at == other.at
                &&& post.message == other.message
                &&& post.ctx == other.ctx
                &&& post.notify == other.notify
                &&& action is PollRecv || action is PopWake || action is PollStream
                    || action is PollFuture || action is Pending ==> post.phase == other.phase
            }),
    {
        self.tasks.law_vacant_is_empty();
        assert(self.without_tasks().tasks.is_vacant());
        assert(self.without_tasks().tasks.count() == 0);
    }

    /// A message that waits when a task that was waited for alone is finished goes to the exclusive
    /// handler next.
    pub proof fn law_waiting_message_comes_first(self, m: M)
        requires
            self.wf(),
            self.message == Some(m),
            self.at == Step::PollHook(Stage::OnStart) || self.at == Step::PollHook(
                Stage::Exclusive,
            ),
        ensures
            ({
                let (post, action) = self.resumed(Event::Polled(Poll::Ready(())));
                &&& action == Action::<M, N>::HandleMut(m)
                &&& post.message is None
            }),
    {
    }

    /// An actor that stops gracefully and never takes a message from its channel does not wait for
    /// the channel: it finishes its tasks, and calls `on_stop` when there are none.
    pub proof fn law_nothing_to_drain(self)
        requires
            self.wf(),
            self.at is Idle,
            self.phase is Yield,
            self.ctx.actor is StopGraceful,
            self.message is None,
            self.size_hint == 0,
        ensures
            ({
                let (post, action) = self.ran();
                if self.tasks.is_vacant() {
                    action is OnStop
                } else {
                    action is PopWake && post.tasks == self.tasks && post.phase is Resolve
                }
            }),
    {
    }

    /// A context that is over stays over: a poll of it changes nothing.
    pub proof fn law_over_for_good(self)
        requires
            self.wf(),
            self.at is Idle,
            self.phase is Finished,
        ensures
            self.ran().1 is Pending,
            self.ran().0 == self,
    {
    }

    /// A context that waits for its last tasks does so until none is left, and then calls `on_stop`.
    pub proof fn law_last_tasks_are_awaited(self)
        requires
            self.wf(),
        ensures
            self.at is Idle && self.phase is Resolve ==> {
                let (post, action) = self.ran();
                action is PopWake && post.tasks == self.tasks && post.phase is Resolve
            },
            self.at is Idle && self.phase is ResolveYield ==> {
                let (post, action) = self.ran();
                if self.tasks.is_vacant() {
                    action is OnStop
                } else {
                    action is PopWake && post.tasks == self.tasks && post.phase is Resolve
                }
            },
            self.at is Wake && self.phase is Resolve ==> {
                let (post, action) = self.resumed(Event::Woken(None));
                action is Pending && post.tasks == self.tasks && post.phase is Resolve
            },
    {
    }

    /// The place of a stream that is over, or of a delayed message that is due, is taken by the last
    /// one, and all others keep their places.
    pub proof fn law_others_keep_their_places(self, event: Event<M, T, N>, i: usize, k: int)
        requires
            self.wf(),
            self.expects(event),
        ensures
            ({
                let pre = self.ctx.streams;
                let post = self.resumed(event).0.ctx.streams;
                if self.at == Step::Stream(i) && (event matches Event::Message(Poll::Ready(None))) {
                    &&& post.len() == pre.len() - 1
                    &&& 0 <= k < post.len() ==> post[k] == (if k == i {
                        pre.last()
                    } else {
                        pre[k]
                    })
                } else {
                    self.at !is Stream || !(event matches Event::Message(Poll::Ready(None))) ==> post
                        == pre
                }
            }),
            ({
                let pre = self.ctx.futures;
                let post = self.resumed(event).0.ctx.futures;
                if self.at == Step::Future(i) && (event matches Event::Message(Poll::Ready(_))) {
                    &&& post.len() == pre.len() - 1
                    &&& 0 <= k < post.len() ==> post[k] == (if k == i {
                        pre.last()
                    } else {
                        pre[k]
                    })
                } else {
                    self.at !is Future || !(event matches Event::Message(Poll::Ready(_))) ==> post
                        == pre
                }
            }),
    {
    }

    /// The context is over once the task of `on_stop` is finished, and whoever gave the order to
    /// stop is notified then.
    pub proof fn law_finish_notifies(self, event: Event<M, T, N>, notify: Option<N>)
        requires
            self.wf(),
            self.expects(event),
            self.resumed(event).1 == Action::<M, N>::Finish(notify),
        ensures
            self.at == Step::PollHook(Stage::OnStop),
            event matches Event::Polled(Poll::Ready(_)),
            notify == self.notify,
    {
    }
}

/// The concurrent tasks, under the indices by which they are woken.
pub struct TaskRef<T> {
    task: Slab<T>,
}

impl<T> View for TaskRef<T> {
    type V = crate::util::slab::SlabView<T>;

    closed spec fn view(&self) -> crate::util::slab::SlabView<T> {
        self.task@
    }
}

impl<T> TaskRef<T> {
    pub closed spec fn wf(&self) -> bool {
        self.task.wf()
    }

    /// No tasks, with room for `capacity` of them.
    pub fn new(capacity: usize) -> (tasks: TaskRef<T>)
        ensures
            tasks.wf(),
            tasks@.wf(),
            tasks@.slots == Seq::<Option<T>>::empty(),
            tasks@.free == Seq::<usize>::empty(),
    {
        let tasks = TaskRef { task: Slab::with_capacity(capacity) };
        proof {
            tasks.task.lemma_wf();
        }
        tasks
    }

    /// Whether there is no task.
    pub fn is_empty(&self) -> (empty: bool)
        requires
            self.wf(),
        ensures
            empty == self@.is_vacant(),
    {
        self.task.is_empty()
    }

    /// The number of tasks.
    pub fn len(&self) -> (n: usize)
        requires
            self.wf(),
        ensures
            n == self@.count(),
    {
        self.task.len()
    }

    /// Adds a task and returns its index, which is to be put into the wake queue.
    pub fn add_task(&mut self, task: T) -> (idx: usize)
        requires
            old(self).wf(),
        ensures
            final(self).wf(),
            final(self)@.wf(),
            idx == old(self)@.next_key(),
            final(self)@ == old(self)@.inserted(task),
    {
        self.task.insert(task)
    }
}

/// The message that waits for the exclusive handler.
pub struct TaskMut<M>(Option<M>);

impl<M> View for TaskMut<M> {
    type V = Option<M>;

    closed spec fn view(&self) -> Option<M> {
        self.0
    }
}

impl<M> TaskMut<M> {
    /// No message.
    pub fn new() -> (task: TaskMut<M>)
        ensures
            task@ == None::<M>,
    {
        TaskMut(None)
    }

    /// Sets the message.
    pub fn add_task(&mut self, msg: M)
        ensures
            final(self)@ == Some(msg),
    {
        self.0 = Some(msg);
    }

    /// Whether there is no message.
    pub fn is_empty(&self) -> (empty: bool)
        ensures
            empty == self@ is None,
    {
        self.0.is_none()
    }

    /// Takes the message out.
    pub fn take(&mut self) -> (msg: Option<M>)
        ensures
            msg == old(self)@,
            final(self)@ == None::<M>,
    {
        self.0.take()
    }
}

/// The context of an actor: what it runs and how far it is.
pub struct ContextFuture<M, T, F, S, N> {
    ctx: Context<F, S>,
    task_mut: TaskMut<M>,
    exclusive: Option<T>,
    task_ref: TaskRef<T>,
    size_hint: usize,
    notify: Option<N>,
    phase: Phase,
    at: Step,
}

impl<M, T, F, S, N> View for ContextFuture<M, T, F, S, N> {
    type V = RunView<M, T, F, S, N>;

    closed spec fn view(&self) -> RunView<M, T, F, S, N> {
        RunView {
            ctx: self.ctx@,
            message: self.task_mut@,
            exclusive: self.exclusive,
            tasks: self.task_ref@,
            size_hint: self.size_hint,
            notify: self.notify,
            phase: self.phase,
            at: self.at,
        }
    }
}

impl<M, T, F, S, N> ContextFuture<M, T, F, S, N> {
    pub closed spec fn wf(&self) -> bool {
        self.task_ref.wf() && self@.wf()
    }

    /// What a context waits for always fits how far it is, and the tasks that it has.
    pub proof fn law_rules_are_kept(&self)
        requires
            self.wf(),
        ensures
            self@.wf(),
    {
    }

    /// The context of an actor that has not started, for at most `size_hint` concurrent tasks from
    /// the channel.
    pub fn start(ctx: Context<F, S>, size_hint: usize) -> (fut: ContextFuture<M, T, F, S, N>)
        ensures
            fut.wf(),
            fut@ == (RunView {
                ctx: ctx@,
                message: None::<M>,
                exclusive: None::<T>,
                tasks: fut@.tasks,
                size_hint,
                notify: None::<N>,
                phase: Phase::New,
                at: Step::Idle,
            }),
            fut@.tasks.slots == Seq::<Option<T>>::empty(),
            fut@.tasks.free == Seq::<usize>::empty(),
    {
        ContextFuture {
            ctx,
            task_mut: TaskMut::new(),
            exclusive: None,
            task_ref: TaskRef::new(size_hint),
            size_hint,
            notify: None,
            phase: Phase::New,
            at: Step::Idle,
        }
    }

    /// The concurrent task under `idx`, to poll it.
    pub fn task(&mut self, idx: usize) -> (task: Option<&mut T>)
        requires
            old(self).wf(),
        ensures
            match task {
                Some(t) => {
                    &&& old(self)@.tasks.occupied(idx as int)
                    &&& old(self)@.tasks.slots[idx as int] == Some(*t)
                    &&& final(self)@.tasks.slots == old(self)@.tasks.slots.update(
                        idx as int,
                        Some(*final(t)),
                    )
                    &&& final(self)@.tasks.free == old(self)@.tasks.free
                },
                None => {
                    &&& !old(self)@.tasks.occupied(idx as int)
                    &&& final(self)@.tasks == old(self)@.tasks
                },
            },
            final(self).wf(),
            final(self)@ == (RunView { tasks: final(self)@.tasks, ..old(self)@ }),
    {
        self.task_ref.task.get_mut(idx)
    }

    /// The task that the context waits for alone, to poll it.
    pub fn exclusive(&mut self) -> (task: Option<&mut T>)
        requires
            old(self).wf(),
        ensures
            match task {
                Some(t) => {
                    &&& old(self)@.exclusive == Some(*t)
                    &&& final(self)@ == (RunView { exclusive: Some(*final(t)), ..old(self)@ })
                },
                None => old(self)@.exclusive is None && final(self)@ == old(self)@,
            },
            final(self).wf(),
    {
        self.exclusive.as_mut()
    }

    /// The part of the context that the actor can reach. As long as nothing is taken out of it the
    /// context keeps its rules.
    pub fn ctx(&mut self) -> (ctx: &mut Context<F, S>)
        requires
            old(self).wf(),
        ensures
            ctx@ == old(self)@.ctx,
            final(self)@ == (RunView { ctx: final(ctx)@, ..old(self)@ }),
            final(ctx)@.futures.len() >= old(self)@.ctx.futures.len() && final(ctx)@.streams.len()
                >= old(self)@.ctx.streams.len() ==> final(self).wf(),
    {
        &mut self.ctx
    }

    fn clear_tasks(&mut self)
        ensures
            final(self).task_ref.wf(),
            final(self)@.tasks.wf(),
            final(self)@ == old(self)@.without_tasks(),
    {
        self.task_ref = TaskRef::new(self.size_hint);
        assert(self@.tasks == old(self)@.without_tasks().tasks);
    }

    fn pending(&mut self) -> (action: Action<M, N>)
        ensures
            action is Pending,
            final(self)@ == old(self)@.wait(Step::Idle),
            final(self).task_ref == old(self).task_ref,
    {
        self.at = Step::Idle;
        Action::Pending
    }

    fn outer_loop(&mut self) -> (action: Action<M, N>)
        requires
            old(self).task_ref.wf(),
            old(self)@.tasks.wf(),
        ensures
            (final(self)@, action) == old(self)@.outer_loop(),
            final(self).task_ref.wf(),
            final(self)@.tasks.wf(),
    {
        self.clear_tasks();
        match self.task_mut.take() {
            Some(msg) => {
                self.at = Step::Hook(Stage::Exclusive);
                Action::HandleMut(msg)
            },
            None => self.inner_loop(),
        }
    }

    fn inner_loop(&mut self) -> (action: Action<M, N>)
        requires
            old(self).task_ref.wf(),
            old(self)@.tasks.wf(),
        ensures
            (final(self)@, action) == old(self)@.inner_loop(),
            final(self).task_ref.wf(),
            final(self)@.tasks.wf(),
    {
        if self.ctx.state == ActorState::Stop {
            self.leave()
        } else if !self.task_mut.is_empty() && self.task_ref.is_empty() {
            self.clear_tasks();
            match self.task_mut.take() {
                Some(msg) => {
                    self.at = Step::Hook(Stage::Exclusive);
                    Action::HandleMut(msg)
                },
                None => vstd::pervasive::unreached(),
            }
        } else if self.ctx.state == ActorState::StopGraceful && self.task_mut.is_empty()
            && self.size_hint == 0 {
            self.resolve_loop()
        } else {
            let free: bool = self.task_mut.is_empty();
            let others: bool = free && self.ctx.state == ActorState::Running;
            let recv: bool = free && self.task_ref.len() < self.size_hint;
            let tasks: bool = !self.task_ref.is_empty();
            self.phase = Phase::Select { recv, tasks, others };
            self.select_turn()
        }
    }

    fn drained(&mut self) -> (action: Action<M, N>)
        requires
            old(self).task_ref.wf(),
            old(self)@.tasks.wf(),
        ensures
            (final(self)@, action) == old(self)@.drained(),
            final(self).task_ref.wf(),
            final(self)@.tasks.wf(),
    {
        match self.ctx.state {
            ActorState::Running => {
                self.at = Step::Over;
                Action::CountAddrs
            },
            ActorState::StopGraceful => self.resolve_loop(),
            ActorState::Stop => self.leave(),
        }
    }

    fn over(&mut self, addrs: usize) -> (action: Action<M, N>)
        requires
            old(self).task_ref.wf(),
            old(self)@.tasks.wf(),
        ensures
            (final(self)@, action) == old(self)@.over(addrs),
            final(self).task_ref.wf(),
            final(self)@.tasks.wf(),
    {
        if addrs == 0 {
            self.ctx.state = ActorState::Stop;
            self.leave()
        } else {
            self.ctx.state = ActorState::StopGraceful;
            self.resolve_loop()
        }
    }

    fn resolve_loop(&mut self) -> (action: Action<M, N>)
        requires
            old(self).task_ref.wf(),
            old(self)@.tasks.wf(),
        ensures
            (final(self)@, action) == old(self)@.resolve_loop(),
            final(self).task_ref.wf(),
            final(self)@.tasks.wf(),
    {
        if self.task_ref.is_empty() {
            self.leave()
        } else {
            self.phase = Phase::Resolve;
            self.wake_turn()
        }
    }

    fn leave(&mut self) -> (action: Action<M, N>)
        requires
            old(self).task_ref.wf(),
            old(self)@.tasks.wf(),
        ensures
            (final(self)@, action) == old(self)@.leave(),
            final(self).task_ref.wf(),
            final(self)@.tasks.wf(),
    {
        self.clear_tasks();
        self.stop_turn()
    }

    fn stop_turn(&mut self) -> (action: Action<M, N>)
        ensures
            (final(self)@, action) == old(self)@.stop_turn(),
            final(self).task_ref == old(self).task_ref,
    {
        self.at = Step::Hook(Stage::OnStop);
        Action::OnStop
    }

    fn select_turn(&mut self) -> (action: Action<M, N>)
        requires
            old(self).task_ref.wf(),
        ensures
            (final(self)@, action) == old(self)@.select_turn(),
            final(self).task_ref == old(self).task_ref,
    {
        match self.phase {
            Phase::Select { recv: true, .. } => {
                self.at = Step::Recv;
                Action::PollRecv
            },
            _ => self.select_tasks(),
        }
    }

    fn select_tasks(&mut self) -> (action: Action<M, N>)
        requires
            old(self).task_ref.wf(),
        ensures
            (final(self)@, action) == old(self)@.select_tasks(),
            final(self).task_ref == old(self).task_ref,
    {
        match self.phase {
            Phase::Select { tasks: true, .. } => self.wake_turn(),
            _ => self.poll_stream(0),
        }
    }

    fn wake_turn(&mut self) -> (action: Action<M, N>)
        requires
            old(self).task_ref.wf(),
        ensures
            (final(self)@, action) == old(self)@.wake_turn(),
            final(self).task_ref == old(self).task_ref,
    {
        let len: usize = self.task_ref.len();
        self.at = Step::Wake { len, polled: 0 };
        Action::PopWake
    }

    fn looked_at(&mut self, len: usize, polled: usize) -> (action: Action<M, N>)
        ensures
            (final(self)@, action) == old(self)@.looked_at(len, polled),
            final(self).task_ref == old(self).task_ref,
    {
        let polled: usize = polled.wrapping_add(1);
        if polled == len {
            self.at = Step::Idle;
            self.phase = if self.phase == Phase::Resolve {
                Phase::ResolveYield
            } else {
                Phase::Yield
            };
            Action::Yield
        } else {
            self.at = Step::Wake { len, polled };
            Action::PopWake
        }
    }

    /// Turns to the streams from place `i` on.
    fn poll_stream(&mut self, i: usize) -> (action: Action<M, N>)
        ensures
            (final(self)@, action) == old(self)@.stream_turn(i as int),
            final(self).task_ref == old(self).task_ref,
    {
        match self.phase {
            Phase::Select { others: true, .. } => {
                if self.ctx.state == ActorState::Running && i < self.ctx.stream_cache.len() {
                    self.at = Step::Stream(i);
                    Action::PollStream(i)
                } else {
                    self.poll_future(0)
                }
            },
            _ => self.poll_future(0),
        }
    }

    /// Turns to the delayed messages from place `i` on.
    fn poll_future(&mut self, i: usize) -> (action: Action<M, N>)
        ensures
            (final(self)@, action) == old(self)@.future_turn(i as int),
            final(self).task_ref == old(self).task_ref,
    {
        match self.phase {
            Phase::Select { others: true, .. } => {
                if self.ctx.state == ActorState::Running && i < self.ctx.future_cache.len() {
                    self.at = Step::Future(i);
                    Action::PollFuture(i)
                } else {
                    self.pending()
                }
            },
            _ => self.pending(),
        }
    }

    fn received(&mut self, msg: ActorMessage<M, N>) -> (action: Action<M, N>)
        requires
            old(self).task_ref.wf(),
            old(self)@.tasks.wf(),
        ensures
            (final(self)@, action) == old(self)@.received(msg),
            final(self).task_ref.wf(),
            final(self)@.tasks.wf(),
    {
        match msg {
            ActorMessage::Ref(m) => {
                self.at = Step::HandleRef;
                Action::HandleRef(m)
            },
            ActorMessage::Mut(m) => {
                self.task_mut.add_task(m);
                self.inner_loop()
            },
            ActorMessage::State(state, notify) => {
                self.ctx.state = state;
                self.notify = Some(notify);
                if state == ActorState::StopGraceful {
                    self.at = Step::Close;
                    Action::CloseRecv
                } else {
                    self.inner_loop()
                }
            },
        }
    }

    fn awaited(&mut self, stage: Stage) -> (action: Action<M, N>)
        requires
            old(self).task_ref.wf(),
            old(self)@.tasks.wf(),
        ensures
            (final(self)@, action) == old(self)@.awaited(stage),
            final(self).task_ref.wf(),
            final(self)@.tasks.wf(),
    {
        self.exclusive = None;
        self.phase = Phase::Yield;
        match stage {
            Stage::OnStart => {
                self.ctx.state = ActorState::Running;
                self.outer_loop()
            },
            Stage::Exclusive => self.outer_loop(),
            Stage::OnStop => {
                self.phase = Phase::Finished;
                self.at = Step::Idle;
                Action::Finish(self.notify.take())
            },
        }
    }

    /// Begins a poll of the context. Returns what is to be done first.
    pub fn run(&mut self) -> (action: Action<M, N>)
        requires
            old(self).wf(),
            old(self)@.at is Idle,
            old(self)@.phase !is Finished,
        ensures
            final(self).wf(),
            (final(self)@, action) == old(self)@.ran(),
    {
        match self.phase {
            Phase::New => {
                self.at = Step::Hook(Stage::OnStart);
                Action::OnStart
            },
            Phase::Await(stage) => {
                self.at = Step::PollHook(stage);
                Action::PollExclusive
            },
            Phase::Select { .. } => self.select_turn(),
            Phase::Yield => self.inner_loop(),
            Phase::Resolve => self.wake_turn(),
            Phase::ResolveYield => self.resolve_loop(),
            Phase::Finished => self.pending(),
        }
    }

    /// Goes on after an event. Returns what is to be done next.
    pub fn resume(&mut self, event: Event<M, T, N>) -> (action: Action<M, N>)
        requires
            old(self).wf(),
            old(self)@.expects(event),
        ensures
            final(self).wf(),
            (final(self)@, action) == old(self)@.resumed(event),
    {
        match self.at {
            Step::Hook(stage) => match event {
                Event::Built(task) => {
                    self.exclusive = Some(task);
                    self.at = Step::PollHook(stage);
                    Action::PollExclusive
                },
                _ => self.pending(),
            },
            Step::PollHook(stage) => match event {
                Event::Polled(Poll::Ready(())) => self.awaited(stage),
                _ => {
                    self.phase = Phase::Await(stage);
                    self.pending()
                },
            },
            Step::Recv => match event {
                Event::Message(Poll::Ready(Some(msg))) => self.received(msg),
                Event::Message(Poll::Ready(None)) => self.drained(),
                _ => self.select_tasks(),
            },
            Step::Wake { .. } | Step::Task { .. } => self.poll_task(event),
            Step::Stream(i) => {
                assert(self.ctx.stream_cache.len() == self@.ctx.streams.len());
                match event {
                    Event::Message(Poll::Ready(Some(msg))) => self.received(msg),
                    Event::Message(Poll::Ready(None)) => {
                        let _ = self.ctx.stream_cache.swap_remove(i);
                        self.poll_stream(i)
                    },
                    _ => self.poll_stream(i + 1),
                }
            },
            Step::Future(i) => {
                assert(self.ctx.future_cache.len() == self@.ctx.futures.len());
                match event {
                    Event::Message(Poll::Ready(msg)) => {
                        let _ = self.ctx.future_cache.swap_remove(i);
                        match msg {
                            Some(msg) => self.received(msg),
                            // Message is canceled by ContextJoinHandle. Ignore it.
                            None => self.poll_future(i),
                        }
                    },
                    _ => self.poll_future(i + 1),
                }
            },
            Step::HandleRef => match event {
                Event::Built(task) => {
                    let idx = self.task_ref.add_task(task);
                    self.at = Step::Enqueue;
                    Action::Enqueue(idx)
                },
                _ => self.pending(),
            },
            Step::Enqueue | Step::Close => self.inner_loop(),
            Step::Over => match event {
                Event::Addrs(addrs) => self.over(addrs),
                _ => self.pending(),
            },
            Step::Idle => self.pending(),
        }
    }

    /// Goes on with the concurrent tasks.
    fn poll_task(&mut self, event: Event<M, T, N>) -> (action: Action<M, N>)
        requires
            old(self).wf(),
            old(self)@.expects(event),
            old(self)@.at is Wake || old(self)@.at is Task,
        ensures
            final(self).wf(),
            (final(self)@, action) == old(self)@.resumed(event),
    {
        match self.at {
            Step::Wake { len, polled } => match event {
                Event::Woken(Some(idx)) => {
                    if self.task_ref.task.contains(idx) {
                        self.at = Step::Task { idx, len, polled };
                        Action::PollTask(idx)
                    } else {
                        self.looked_at(len, polled)
                    }
                },
                _ => {
                    if self.phase == Phase::Resolve {
                        self.pending()
                    } else {
                        self.poll_stream(0)
                    }
                },
            },
            Step::Task { idx, len, polled } => {
                // remove the resolved tasks.
                match event {
                    Event::Polled(Poll::Ready(())) => {
                        let _ = self.task_ref.task.remove(idx);
                        proof {
                            self.task_ref.task.lemma_wf();
                        }
                    },
                    _ => {},
                }
                self.looked_at(len, polled)
            },
            _ => self.pending(),
        }
    }
}

} // verus!
