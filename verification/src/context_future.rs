//! How an actor's context runs its tasks.
//!
//! A `ContextFuture` decides and somebody else acts: `poll` and `resume` return what is to be done
//! next, and `resume` is told what came of it, until a poll of the context is over.

use vstd::prelude::*;

use crate::actor::ActorState;
use crate::context::Context;
use crate::message::ActorMessage;
use crate::util::futures::Poll;
use crate::util::slab::Slab;

verus! {

/// How many items in a row are taken from one stream before others get their turn.
pub const STREAM_BUDGET: usize = 16;

/// The phases of a context.
#[derive(Clone, Copy, Debug, PartialEq, Eq, Structural)]
pub enum ContextState {
    /// The actor's `on_start` is not finished.
    Starting,
    /// Messages are handled.
    Running,
    /// The actor's `on_stop` is not finished.
    Stopping,
}

/// Where a message for the concurrent handler came from.
#[derive(Clone, Copy, Debug, PartialEq, Eq, Structural)]
pub enum Origin {
    /// A delayed message; the one at this place is the next to look at.
    Future(usize),
    /// The stream at this place, which has given this many items in a row.
    Stream(usize, usize),
    /// The channel.
    Recv,
}

/// What a context waits for.
#[derive(Clone, Copy, Debug, PartialEq, Eq, Structural)]
pub enum Step {
    /// The next poll.
    Idle,
    /// The index of a task that was woken. So many tasks were there, and so many were looked at.
    Wake { len: usize, polled: usize },
    /// A poll of the task `idx`.
    Task { idx: usize, len: usize, polled: usize },
    /// The end of the polls of tasks: as many were looked at as were there.
    HardBreak,
    /// A poll of the exclusive task.
    Exclusive,
    /// A poll of a delayed message.
    Future(usize),
    /// A poll of a stream, which has given this many items in a row.
    Stream(usize, usize),
    /// A poll of the channel.
    Recv,
    /// The task for a message to the concurrent handler.
    HandleRef(Origin),
    /// The registration of a new task as one to be polled.
    Enqueue(Origin),
    /// The task for a message to the exclusive handler.
    HandleMut,
    /// The end of the channel, after an order to stop.
    Close(ActorState),
    /// The task of `on_start`.
    OnStart,
    /// A poll of the task of `on_start`.
    Starting,
    /// The task of `on_stop`.
    OnStop,
    /// A poll of the task of `on_stop`.
    Stopping,
}

/// What is to be done next.
#[derive(Debug, PartialEq, Eq)]
pub enum Action<M> {
    /// Take the index of a woken task from the wake queue.
    PopWake,
    /// Poll the concurrent task under this index, with a waker that puts the index into the wake
    /// queue.
    PollTask(usize),
    /// Have the context polled again.
    WakeSelf,
    /// Poll the exclusive task.
    PollExclusive,
    /// Poll the delayed message at this place.
    PollFuture(usize),
    /// Poll the stream at this place.
    PollStream(usize),
    /// Poll the channel.
    PollRecv,
    /// Hand the message to the concurrent handler.
    HandleRef(M),
    /// Hand the message to the exclusive handler.
    HandleMut(M),
    /// Put the index into the wake queue.
    Enqueue(usize),
    /// Close the channel.
    CloseRecv,
    /// Call the actor's `on_start`.
    OnStart,
    /// Call the actor's `on_stop`.
    OnStop,
    /// The poll of the context is over.
    Return(Poll<()>),
}

/// What came of an action.
#[derive(Debug, PartialEq, Eq)]
pub enum Event<M, T, N> {
    /// The index that was taken from the wake queue, if there was one to be had.
    Woken(Option<usize>),
    /// The outcome of a poll of a task.
    Polled(Poll<()>),
    /// The outcome of a poll of a delayed message, a stream or the channel.
    Message(Poll<Option<ActorMessage<M, N>>>),
    /// The task that a handler or a hook of the actor returned.
    Built(T),
    /// It is done.
    Done,
}

/// What a context is: the state of its actor, the delayed messages and streams, the exclusive task,
/// the concurrent tasks, whom to notify of the end, its phase, whether it wants another round, and
/// what it waits for.
pub ghost struct ContextView<T, F, S, N> {
    pub actor: ActorState,
    pub futures: Seq<F>,
    pub streams: Seq<S>,
    pub exclusive: Option<T>,
    pub tasks: crate::util::slab::SlabView<T>,
    pub notify: Option<N>,
    pub phase: ContextState,
    pub extra_poll: bool,
    pub at: Step,
}

/// A sequence after its item `i` is removed and the last one takes its place.
pub open spec fn swap_removed<A>(s: Seq<A>, i: int) -> Seq<A> {
    s.update(i, s.last()).drop_last()
}

impl<T, F, S, N> ContextView<T, F, S, N> {
    /// What a context waits for fits its phase and its tasks. An actor whose `on_stop` is due is
    /// not running any more.
    pub open spec fn wf(self) -> bool {
        &&& self.tasks.wf()
        &&& self.phase is Stopping ==> self.actor !is Running
        &&& match self.at {
            Step::Idle => true,
            Step::Wake { len, polled } => self.phase is Running && (len == 0 || polled < len),
            Step::Task { idx, len, polled } => {
                &&& self.phase is Running
                &&& len == 0 || polled < len
                &&& self.tasks.occupied(idx as int)
            },
            Step::HardBreak => self.phase is Running,
            Step::Exclusive => {
                self.phase is Running && self.exclusive is Some && self.tasks.is_vacant()
            },
            Step::Future(i) => self.accepts() && i < self.futures.len(),
            Step::Stream(i, n) => self.accepts() && i < self.streams.len() && n < STREAM_BUDGET,
            Step::Recv => self.accepts(),
            Step::HandleRef(origin) => self.accepts() && self.comes_from(origin),
            Step::Enqueue(origin) => self.accepts() && self.comes_from(origin),
            Step::HandleMut => self.accepts(),
            Step::Close(state) => self.accepts() && state !is Running,
            Step::OnStart => self.phase is Starting && self.exclusive is None,
            Step::Starting => self.phase is Starting && self.exclusive is Some,
            Step::OnStop => self.phase is Stopping && self.exclusive is None,
            Step::Stopping => self.phase is Stopping && self.exclusive is Some,
        }
    }

    /// New messages may come in: no exclusive task is pending.
    pub open spec fn accepts(self) -> bool {
        self.phase is Running && self.exclusive is None
    }

    pub open spec fn comes_from(self, origin: Origin) -> bool {
        match origin {
            Origin::Future(i) => i <= self.futures.len(),
            Origin::Stream(i, n) => i < self.streams.len() && 0 < n <= STREAM_BUDGET,
            Origin::Recv => true,
        }
    }

    /// Whether the event is one that can follow the action.
    pub open spec fn expects<M>(self, event: Event<M, T, N>) -> bool {
        match self.at {
            Step::Idle => false,
            Step::Wake { .. } => event is Woken,
            Step::Task { .. } | Step::Exclusive | Step::Starting | Step::Stopping => event is Polled,
            Step::HardBreak | Step::Enqueue(_) | Step::Close(_) => event is Done,
            Step::Future(_) | Step::Stream(_, _) => {
                &&& event matches Event::Message(poll)
                &&& !(poll matches Poll::Ready(Some(ActorMessage::State(_, _))))
            },
            Step::Recv => {
                &&& event matches Event::Message(poll)
                &&& !(poll matches Poll::Ready(Some(ActorMessage::State(ActorState::Running, _))))
            },
            Step::HandleRef(_) | Step::HandleMut | Step::OnStart | Step::OnStop => event is Built,
        }
    }

    /// The context waits for something else.
    pub open spec fn wait(self, at: Step) -> ContextView<T, F, S, N> {
        ContextView { at, ..self }
    }

    /// The poll of the context is over.
    pub open spec fn done<M>(self, poll: Poll<()>) -> (ContextView<T, F, S, N>, Action<M>) {
        (self.wait(Step::Idle), Action::Return(poll))
    }

    /// A round starts with the tasks that were woken.
    pub open spec fn round<M>(self) -> (ContextView<T, F, S, N>, Action<M>) {
        (self.wait(Step::Wake { len: self.tasks.count() as usize, polled: 0 }), Action::PopWake)
    }

    /// One more task was looked at. After as many as there were the others get their turn.
    pub open spec fn looked_at<M>(self, len: usize, polled: usize) -> (
        ContextView<T, F, S, N>,
        Action<M>,
    ) {
        if polled.wrapping_add(1) == len {
            (self.wait(Step::HardBreak), Action::WakeSelf)
        } else {
            (self.wait(Step::Wake { len, polled: polled.wrapping_add(1) }), Action::PopWake)
        }
    }

    /// The exclusive task waits for the concurrent ones, and everything else for it.
    pub open spec fn exclusive_turn<M>(self) -> (ContextView<T, F, S, N>, Action<M>) {
        if self.exclusive is Some {
            if self.tasks.is_vacant() {
                (self.wait(Step::Exclusive), Action::PollExclusive)
            } else {
                self.done(Poll::Pending)
            }
        } else {
            self.message_turn()
        }
    }

    /// What comes in, once the tasks had their turn.
    pub open spec fn message_turn<M>(self) -> (ContextView<T, F, S, N>, Action<M>) {
        ContextView { extra_poll: false, ..self }.future_turn(0)
    }

    /// The delayed messages from place `i` on, then the streams. They have no turn any more as soon
    /// as the actor is stopped.
    pub open spec fn future_turn<M>(self, i: int) -> (ContextView<T, F, S, N>, Action<M>) {
        if self.actor is Running && i < self.futures.len() {
            (self.wait(Step::Future(i as usize)), Action::PollFuture(i as usize))
        } else {
            self.stream_turn(0)
        }
    }

    /// The streams from place `i` on, then the channel.
    pub open spec fn stream_turn<M>(self, i: int) -> (ContextView<T, F, S, N>, Action<M>) {
        if self.actor is Running && i < self.streams.len() {
            (self.wait(Step::Stream(i as usize, 0)), Action::PollStream(i as usize))
        } else {
            self.recv_turn()
        }
    }

    /// The channel.
    pub open spec fn recv_turn<M>(self) -> (ContextView<T, F, S, N>, Action<M>) {
        (self.wait(Step::Recv), Action::PollRecv)
    }

    /// After a concurrent message the place that it came from has its turn again. A stream that
    /// gave too many items in a row has to wait for another round.
    pub open spec fn back_to<M>(self, origin: Origin) -> (ContextView<T, F, S, N>, Action<M>) {
        match origin {
            Origin::Future(i) => self.future_turn(i as int),
            Origin::Stream(i, n) => {
                if n == STREAM_BUDGET {
                    ContextView { extra_poll: true, ..self }.stream_turn(i + 1)
                } else if self.actor !is Running {
                    self.recv_turn()
                } else {
                    (self.wait(Step::Stream(i, n)), Action::PollStream(i))
                }
            },
            Origin::Recv => self.recv_turn(),
        }
    }

    /// The hook of the actor for the end of the context.
    pub open spec fn closing<M>(self) -> (ContextView<T, F, S, N>, Action<M>) {
        let v = ContextView { phase: ContextState::Stopping, ..self };
        if self.exclusive is Some {
            (v.wait(Step::Stopping), Action::PollExclusive)
        } else {
            (v.wait(Step::OnStop), Action::OnStop)
        }
    }

    /// A message for one of the handlers.
    pub open spec fn message<M>(self, msg: ActorMessage<M, N>, origin: Origin) -> (
        ContextView<T, F, S, N>,
        Action<M>,
    ) {
        match msg {
            ActorMessage::Ref(m) => (self.wait(Step::HandleRef(origin)), Action::HandleRef(m)),
            ActorMessage::Mut(m) => (self.wait(Step::HandleMut), Action::HandleMut(m)),
            ActorMessage::State(state, notify) => (
                ContextView { notify: Some(notify), ..self }.wait(Step::Close(state)),
                Action::CloseRecv,
            ),
        }
    }

    /// The channel is closed and drained: the context ends once nothing is left to do.
    pub open spec fn drained<M>(self) -> (ContextView<T, F, S, N>, Action<M>) {
        let v = ContextView { actor: ActorState::StopGraceful, ..self };
        if self.actor is Stop {
            v.closing()
        } else if self.extra_poll {
            v.round()
        } else if !self.tasks.is_vacant() || self.exclusive is Some {
            v.done(Poll::Pending)
        } else {
            v.closing()
        }
    }

    /// The context after a poll of it began, and what is to be done first.
    pub open spec fn polled<M>(self) -> (ContextView<T, F, S, N>, Action<M>) {
        match self.phase {
            ContextState::Starting => if self.exclusive is Some {
                (self.wait(Step::Starting), Action::PollExclusive)
            } else {
                (self.wait(Step::OnStart), Action::OnStart)
            },
            ContextState::Running => self.round(),
            ContextState::Stopping => self.closing(),
        }
    }

    /// The context after an event, and what is to be done next.
    pub open spec fn resumed<M>(self, event: Event<M, T, N>) -> (
        ContextView<T, F, S, N>,
        Action<M>,
    ) {
        match (self.at, event) {
            (Step::Wake { .. }, Event::Woken(None)) => self.exclusive_turn(),
            (Step::Wake { len, polled }, Event::Woken(Some(idx))) => {
                if self.tasks.occupied(idx as int) {
                    (self.wait(Step::Task { idx, len, polled }), Action::PollTask(idx))
                } else {
                    self.looked_at(len, polled)
                }
            },
            (Step::Task { idx, len, polled }, Event::Polled(poll)) => {
                let tasks = if poll is Ready {
                    self.tasks.removed(idx)
                } else {
                    self.tasks
                };
                ContextView { tasks, ..self }.looked_at(len, polled)
            },
            (Step::HardBreak, _) => self.exclusive_turn(),
            (Step::Exclusive, Event::Polled(Poll::Ready(_))) => {
                ContextView { exclusive: None, ..self }.message_turn()
            },
            (Step::Exclusive, _) => self.done(Poll::Pending),
            (Step::Future(i), Event::Message(Poll::Pending)) => self.future_turn(i + 1),
            (Step::Future(i), Event::Message(Poll::Ready(msg))) => {
                let v = ContextView { futures: swap_removed(self.futures, i as int), ..self };
                match msg {
                    Some(msg) => v.message(msg, Origin::Future(i)),
                    None => v.future_turn(i as int),
                }
            },
            (Step::Stream(i, _), Event::Message(Poll::Pending)) => self.stream_turn(i + 1),
            (Step::Stream(i, n), Event::Message(Poll::Ready(Some(msg)))) => self.message(
                msg,
                Origin::Stream(i, (n + 1) as usize),
            ),
            (Step::Stream(i, _), Event::Message(Poll::Ready(None))) => {
                // A stream that takes the place of this one has its turn in another round.
                ContextView {
                    streams: swap_removed(self.streams, i as int),
                    extra_poll: self.extra_poll || i + 1 < self.streams.len(),
                    ..self
                }.stream_turn(i + 1)
            },
            (Step::Recv, Event::Message(Poll::Pending)) => {
                if self.extra_poll {
                    self.round()
                } else {
                    self.done(Poll::Pending)
                }
            },
            (Step::Recv, Event::Message(Poll::Ready(Some(msg)))) => self.message(msg, Origin::Recv),
            (Step::Recv, Event::Message(Poll::Ready(None))) => self.drained(),
            (Step::HandleRef(origin), Event::Built(task)) => (
                ContextView { extra_poll: true, tasks: self.tasks.inserted(task), ..self }.wait(
                    Step::Enqueue(origin),
                ),
                Action::Enqueue(self.tasks.next_key() as usize),
            ),
            (Step::Enqueue(origin), _) => self.back_to(origin),
            (Step::HandleMut, Event::Built(task)) => {
                ContextView { exclusive: Some(task), ..self }.round()
            },
            (Step::Close(state), _) => {
                let v = ContextView { actor: ActorState::StopGraceful, ..self };
                if state is Stop {
                    v.closing()
                } else {
                    v.recv_turn()
                }
            },
            (Step::OnStart, Event::Built(task)) => (
                ContextView { exclusive: Some(task), ..self }.wait(Step::Starting),
                Action::PollExclusive,
            ),
            (Step::Starting, Event::Polled(Poll::Ready(_))) => {
                ContextView {
                    exclusive: None,
                    actor: ActorState::Running,
                    phase: ContextState::Running,
                    ..self
                }.round()
            },
            (Step::OnStop, Event::Built(task)) => (
                ContextView { exclusive: Some(task), ..self }.wait(Step::Stopping),
                Action::PollExclusive,
            ),
            (Step::Stopping, Event::Polled(Poll::Ready(_))) => {
                ContextView { exclusive: None, ..self }.done(Poll::Ready(()))
            },
            _ => self.done(Poll::Pending),
        }
    }

    /// A message from the channel goes to the handler that it is for.
    pub proof fn law_message_reaches_its_handler<M>(self, msg: M)
        requires
            self.wf(),
            self.at is Recv,
        ensures
            self.resumed(
                Event::<M, T, N>::Message(Poll::Ready(Some(ActorMessage::Ref(msg)))),
            ).1 == Action::HandleRef(msg),
            self.resumed(
                Event::<M, T, N>::Message(Poll::Ready(Some(ActorMessage::Mut(msg)))),
            ).1 == Action::HandleMut(msg),
    {
    }

    /// The exclusive task of a message is polled only when no concurrent task is left.
    pub proof fn law_exclusive_task_runs_alone<M>(self, event: Event<M, T, N>)
        requires
            self.wf(),
            self.expects(event),
        ensures
            ({
                let (post, action) = self.resumed(event);
                action is PollExclusive && post.phase is Running ==> post.tasks.is_vacant()
            }),
    {
    }

    /// An exclusive task that is alone stays alone until it is finished: no other task is polled and
    /// none is added.
    pub proof fn law_exclusive_task_blocks_the_actor<M>(self, event: Event<M, T, N>)
        requires
            self.wf(),
            self.expects(event),
            self.phase is Running,
            self.exclusive is Some,
            self.tasks.is_vacant(),
        ensures
            ({
                let (post, action) = self.resumed(event);
                post.exclusive is Some ==> {
                    &&& post.exclusive == self.exclusive
                    &&& post.tasks == self.tasks
                    &&& action !is PollTask
                }
            }),
    {
    }

    /// While an exclusive task is pending nothing new comes in: no delayed message, no stream and
    /// not the channel is polled, and no message is handed to a handler.
    pub proof fn law_nothing_new_beside_an_exclusive_task<M>(self, event: Event<M, T, N>)
        requires
            self.wf(),
            self.expects(event),
        ensures
            ({
                let (post, action) = self.resumed(event);
                action is PollFuture || action is PollStream || action is PollRecv
                    || action is HandleRef || action is HandleMut ==> post.exclusive is None
            }),
    {
    }

    /// A context whose actor is not running does not turn to delayed messages and streams, not even
    /// in the round in which the actor was stopped.
    pub proof fn law_stopped_context_turns_to_the_channel<M>(self, event: Event<M, T, N>)
        requires
            self.wf(),
        ensures
            ({
                let (post, action) = self.polled::<M>();
                action is PollFuture || action is PollStream ==> post.actor is Running
            }),
            self.expects(event) ==> ({
                let (post, action) = self.resumed(event);
                action is PollFuture || action is PollStream ==> post.actor is Running
            }),
    {
    }

    /// A concurrent task stays, and is the same, until a poll of it is ready.
    pub proof fn law_task_runs_to_its_end<M>(self, event: Event<M, T, N>, idx: int)
        requires
            self.wf(),
            self.tasks.occupied(idx),
        ensures
            self.polled::<M>().0.tasks == self.tasks,
            self.expects(event) ==> ({
                let post = self.resumed(event).0;
                ||| post.tasks.occupied(idx) && post.tasks.slots[idx] == self.tasks.slots[idx]
                ||| (self.at matches Step::Task { idx: i, .. } && i == idx) && (
                event matches Event::Polled(Poll::Ready(_)))
            }),
    {
    }

    /// On the order to stop at once the channel is closed, and the next thing is the actor's
    /// `on_stop`. Whoever gave the order is to be notified.
    pub proof fn law_forced_stop<M>(self, notify: N)
        requires
            self.wf(),
            self.at is Recv,
        ensures
            ({
                let order = Event::<M, T, N>::Message(
                    Poll::Ready(Some(ActorMessage::State(ActorState::Stop, notify))),
                );
                let (closed, first) = self.resumed(order);
                let (stopped, second) = closed.resumed(Event::<M, T, N>::Done);
                &&& self.expects(order)
                &&& first is CloseRecv
                &&& second is OnStop
                &&& stopped.phase is Stopping
                &&& stopped.actor !is Running
                &&& stopped.notify == Some(notify)
            }),
    {
    }

    /// On the order to stop gracefully the channel is closed, and the messages in it are handled.
    /// Whoever gave the order is to be notified.
    pub proof fn law_graceful_stop_drains_the_channel<M>(self, notify: N)
        requires
            self.wf(),
            self.at is Recv,
        ensures
            ({
                let order = Event::<M, T, N>::Message(
                    Poll::Ready(Some(ActorMessage::State(ActorState::StopGraceful, notify))),
                );
                let (closed, first) = self.resumed(order);
                let (draining, second) = closed.resumed(Event::<M, T, N>::Done);
                &&& self.expects(order)
                &&& first is CloseRecv
                &&& second is PollRecv
                &&& draining.phase is Running
                &&& draining.actor is StopGraceful
                &&& draining.notify == Some(notify)
            }),
    {
    }

    /// A context stops running for two reasons only: on the order to stop at once, or when the
    /// channel is closed and drained and, unless the actor was stopped before, no task is left.
    pub proof fn law_running_ends<M>(self, event: Event<M, T, N>)
        requires
            self.wf(),
            self.expects(event),
            self.phase is Running,
            self.resumed(event).0.phase !is Running,
        ensures
            self.resumed(event).0.phase is Stopping,
            self.resumed(event).1 is OnStop,
            self.at == Step::Close(ActorState::Stop) || {
                &&& self.at is Recv
                &&& event matches Event::Message(Poll::Ready(None))
                &&& self.actor is Stop || self.tasks.is_vacant() && !self.extra_poll
            },
    {
    }

    /// An actor that stops does not run again: once its `on_stop` is due, nothing that happens sets
    /// it running.
    pub proof fn law_stopping_actor_is_not_running<M>(self, event: Event<M, T, N>)
        requires
            self.wf(),
            self.phase is Stopping,
        ensures
            self.actor !is Running,
            self.polled::<M>().0.phase is Stopping,
            self.polled::<M>().0.actor !is Running,
            self.expects(event) ==> self.resumed(event).0.phase is Stopping,
            self.expects(event) ==> self.resumed(event).0.actor !is Running,
    {
    }

    /// A delayed message leaves the context when a poll of it is ready, and a stream when it is
    /// over, and at no other time: these are the polls with which they let go of their join handles.
    pub proof fn law_finished_task_leaves<M>(self, event: Event<M, T, N>)
        requires
            self.wf(),
            self.expects(event),
        ensures
            self.resumed(event).0.futures == (match (self.at, event) {
                (Step::Future(i), Event::Message(Poll::Ready(_))) => swap_removed(
                    self.futures,
                    i as int,
                ),
                _ => self.futures,
            }),
            self.resumed(event).0.streams == (match (self.at, event) {
                (Step::Stream(i, _), Event::Message(Poll::Ready(None))) => swap_removed(
                    self.streams,
                    i as int,
                ),
                _ => self.streams,
            }),
    {
    }

    /// What a context waits for is the outcome of the action that it asked for, and it takes every
    /// outcome that the action can have: what comes of a poll of a stream or of a delayed message is
    /// no order to stop, and no order sets the actor running.
    pub proof fn law_outcome_of_the_action_is_expected<M>(
        self,
        event: Event<M, T, N>,
        task: T,
        poll: Poll<()>,
        message: Poll<Option<ActorMessage<M, N>>>,
        woken: Option<usize>,
    )
        requires
            self.wf(),
            self.at is Idle || self.expects(event),
        ensures
            ({
                let (post, action) = if self.at is Idle {
                    self.polled::<M>()
                } else {
                    self.resumed(event)
                };
                match action {
                    Action::OnStart | Action::OnStop | Action::HandleMut(_) | Action::HandleRef(_) => {
                        post.expects(Event::<M, T, N>::Built(task))
                    },
                    Action::PollExclusive | Action::PollTask(_) => post.expects(
                        Event::<M, T, N>::Polled(poll),
                    ),
                    Action::PollRecv => message matches Poll::Ready(
                        Some(ActorMessage::State(ActorState::Running, _)),
                    ) || post.expects(Event::<M, T, N>::Message(message)),
                    Action::PollStream(_) | Action::PollFuture(_) => {
                        message matches Poll::Ready(Some(ActorMessage::State(_, _))) || post.expects(
                            Event::<M, T, N>::Message(message),
                        )
                    },
                    Action::PopWake => post.expects(Event::<M, T, N>::Woken(woken)),
                    Action::WakeSelf | Action::Enqueue(_) | Action::CloseRecv => post.expects(
                        Event::<M, T, N>::Done,
                    ),
                    Action::Return(_) => post.at is Idle,
                }
            }),
    {
    }

    /// The outcome of an action is taken for what the action was about: the task, the stream or the
    /// delayed message at the place that was named, and the hook or handler that was called.
    pub proof fn law_outcome_is_taken_for_its_action<M>(self, event: Event<M, T, N>)
        requires
            self.wf(),
            self.at is Idle || self.expects(event),
        ensures
            ({
                let (post, action) = if self.at is Idle {
                    self.polled::<M>()
                } else {
                    self.resumed(event)
                };
                match action {
                    Action::OnStart => post.at is OnStart,
                    Action::OnStop => post.at is OnStop,
                    Action::HandleMut(_) => post.at is HandleMut,
                    Action::HandleRef(_) => post.at is HandleRef,
                    Action::PollExclusive => match post.phase {
                        ContextState::Starting => post.at is Starting,
                        ContextState::Running => post.at is Exclusive,
                        ContextState::Stopping => post.at is Stopping,
                    },
                    Action::PollRecv => post.at is Recv,
                    Action::PopWake => post.at is Wake,
                    Action::PollTask(idx) => post.at matches Step::Task { idx: i, .. } && i == idx,
                    Action::PollStream(i) => post.at matches Step::Stream(k, _) && k == i,
                    Action::PollFuture(i) => post.at == Step::Future(i),
                    Action::Enqueue(_) => post.at is Enqueue,
                    Action::WakeSelf => post.at is HardBreak,
                    Action::CloseRecv => post.at is Close,
                    Action::Return(_) => post.at is Idle,
                }
            }),
    {
    }

    /// The task of a message to the concurrent handler is stored, and the index that is put into the
    /// wake queue is the one that it is stored under. No other task was there, and all others stay.
    pub proof fn law_new_task_is_stored_where_it_is_woken<M>(self, task: T, other: int)
        requires
            self.wf(),
            self.at is HandleRef,
            self.tasks.slots.len() <= usize::MAX,
        ensures
            ({
                let (post, action) = self.resumed(Event::<M, T, N>::Built(task));
                &&& action matches Action::Enqueue(idx)
                &&& post.tasks.occupied(idx as int)
                &&& post.tasks.slots[idx as int] == Some(task)
                &&& !self.tasks.occupied(idx as int)
                &&& other != idx ==> {
                    &&& post.tasks.occupied(other) <==> self.tasks.occupied(other)
                    &&& self.tasks.occupied(other) ==> post.tasks.slots[other]
                        == self.tasks.slots[other]
                }
                &&& post.tasks.count() == self.tasks.count() + 1
            }),
    {
    }

    /// No task comes from nowhere: one that is there afterwards was there before, or is the one that
    /// was just built for the concurrent handler.
    pub proof fn law_no_other_task_appears<M>(self, event: Event<M, T, N>, idx: int)
        requires
            self.wf(),
            self.at is Idle || self.expects(event),
            self.tasks.slots.len() <= usize::MAX,
        ensures
            ({
                let (post, action) = if self.at is Idle {
                    self.polled::<M>()
                } else {
                    self.resumed(event)
                };
                post.tasks.occupied(idx) && !(self.tasks.occupied(idx) && self.tasks.slots[idx]
                    == post.tasks.slots[idx]) ==> {
                    &&& self.at is HandleRef
                    &&& action == Action::<M>::Enqueue(idx as usize)
                    &&& event == Event::<M, T, N>::Built(post.tasks.slots[idx]->0)
                }
            }),
    {
    }

    /// A concurrent task that is finished leaves, and no other one does. One that is pending stays.
    pub proof fn law_finished_task_is_removed<M>(self, poll: Poll<()>, other: int)
        requires
            self.wf(),
            self.at is Task,
        ensures
            ({
                let idx = self.at->Task_idx as int;
                let post = self.resumed(Event::<M, T, N>::Polled(poll)).0;
                &&& post.tasks.occupied(idx) <==> poll is Pending
                &&& post.tasks.count() == self.tasks.count() - (if poll is Ready {
                    1int
                } else {
                    0
                })
                &&& other != idx && self.tasks.occupied(other) ==> post.tasks.occupied(other)
                    && post.tasks.slots[other] == self.tasks.slots[other]
            }),
    {
    }

    /// The exclusive task is the one that was built for the exclusive handler or for a hook, until a
    /// poll of it is ready.
    pub proof fn law_exclusive_task_is_the_one_that_was_built<M>(self, event: Event<M, T, N>)
        requires
            self.wf(),
        ensures
            self.polled::<M>().0.exclusive == self.exclusive,
            self.expects(event) ==> self.resumed(event).0.exclusive == (match event {
                Event::Built(task) if self.at !is HandleRef => Some(task),
                Event::Polled(Poll::Ready(_)) if self.at !is Task => None,
                _ => self.exclusive,
            }),
    {
    }

    /// The state of the actor and the phase of the context change by the end of `on_start`, by an
    /// order to stop and by the end of the channel, and by nothing else that the context does.
    pub proof fn law_state_of_the_actor_is_kept<M>(self, event: Event<M, T, N>)
        requires
            self.wf(),
        ensures
            self.polled::<M>().0.actor == self.actor,
            self.polled::<M>().0.phase == self.phase,
            self.expects(event) ==> {
                let (post, action) = self.resumed(event);
                &&& post.actor == (match (self.at, event) {
                    (Step::Starting, Event::Polled(Poll::Ready(_))) => ActorState::Running,
                    (Step::Close(_), _) => ActorState::StopGraceful,
                    (Step::Recv, Event::Message(Poll::Ready(None))) => ActorState::StopGraceful,
                    _ => self.actor,
                })
                &&& post.phase == (if self.at is Starting && (event matches Event::Polled(
                    Poll::Ready(_),
                )) {
                    ContextState::Running
                } else if action is OnStop {
                    ContextState::Stopping
                } else {
                    self.phase
                })
            },
    {
    }

    /// A message goes to the handler that it is for, wherever it comes from: the channel, a stream
    /// or a delayed message. Afterwards the place that it came from has its turn again, and a stream
    /// that gave an item has given one more in a row.
    pub proof fn law_every_message_reaches_its_handler<M>(self, m: M)
        requires
            self.wf(),
            self.at is Recv || self.at is Stream || self.at is Future,
        ensures
            ({
                let (post, action) = self.resumed(
                    Event::<M, T, N>::Message(Poll::Ready(Some(ActorMessage::Ref(m)))),
                );
                &&& action == Action::<M>::HandleRef(m)
                &&& match self.at {
                    Step::Future(i) => post.at == Step::HandleRef(Origin::Future(i)),
                    Step::Stream(i, n) => post.at == Step::HandleRef(
                        Origin::Stream(i, (n + 1) as usize),
                    ),
                    _ => post.at == Step::HandleRef(Origin::Recv),
                }
            }),
            self.resumed(
                Event::<M, T, N>::Message(Poll::Ready(Some(ActorMessage::Mut(m)))),
            ).1 == Action::<M>::HandleMut(m),
    {
    }

    /// Handlers are called for messages that came, and for no others.
    pub proof fn law_only_messages_are_handled<M>(self, event: Event<M, T, N>)
        requires
            self.wf(),
        ensures
            self.polled::<M>().1 !is HandleRef,
            self.polled::<M>().1 !is HandleMut,
            self.expects(event) ==> {
                &&& self.resumed(event).1 matches Action::HandleRef(m) ==> event == Event::<
                    M,
                    T,
                    N,
                >::Message(Poll::Ready(Some(ActorMessage::Ref(m))))
                &&& self.resumed(event).1 matches Action::HandleMut(m) ==> event == Event::<
                    M,
                    T,
                    N,
                >::Message(Poll::Ready(Some(ActorMessage::Mut(m))))
            },
    {
    }

    /// A poll of a running context, and another round of one, start with the woken tasks, as many as
    /// there are. So does a new exclusive task, which may have to wait for them.
    pub proof fn law_round_starts_with_the_woken_tasks<M>(self, event: Event<M, T, N>)
        requires
            self.wf(),
        ensures
            self.at is Idle && self.phase is Running ==> {
                let (post, action) = self.polled::<M>();
                &&& action is PopWake
                &&& post.at == (Step::Wake { len: self.tasks.count() as usize, polled: 0 })
            },
            self.expects(event) && self.at is HandleMut ==> self.resumed(event).1 is PopWake,
            self.expects(event) && self.at is Starting && (event matches Event::Polled(
                Poll::Ready(_),
            )) ==> self.resumed(event).1 is PopWake,
            self.expects(event) && self.at !is Wake && self.at !is Task && self.resumed(event).1
                is PopWake ==> self.resumed(event).0.at == (Step::Wake {
                len: self.tasks.count() as usize,
                polled: 0,
            }),
    {
    }

    /// A woken task is polled, under the index that was taken from the wake queue. After each task
    /// that was looked at, whether it is pending, finished or long gone, the next index is taken;
    /// after as many as there were at first the context has itself woken and goes on.
    pub proof fn law_woken_tasks_are_polled<M>(self, event: Event<M, T, N>)
        requires
            self.wf(),
            self.expects(event),
        ensures
            ({
                let (post, action) = self.resumed(event);
                match (self.at, event) {
                    (Step::Wake { len, polled }, Event::Woken(Some(idx))) => {
                        if self.tasks.occupied(idx as int) {
                            &&& action == Action::<M>::PollTask(idx)
                            &&& post.at == Step::Task { idx, len, polled }
                        } else if polled + 1 == len {
                            action is WakeSelf
                        } else {
                            len > 0 ==> {
                                &&& action is PopWake
                                &&& post.at == Step::Wake { len, polled: (polled + 1) as usize }
                            }
                        }
                    },
                    (Step::Task { len, polled, .. }, _) => {
                        if polled + 1 == len {
                            action is WakeSelf
                        } else {
                            len > 0 ==> {
                                &&& action is PopWake
                                &&& post.at == Step::Wake { len, polled: (polled + 1) as usize }
                            }
                        }
                    },
                    _ => true,
                }
            }),
    {
    }

    /// After the woken tasks the exclusive task has its turn, if it is alone; if it is not, or is
    /// pending, the poll is over. Without one, or once it is finished, delayed messages, streams and
    /// the channel have theirs.
    pub proof fn law_exclusive_task_comes_before_new_messages<M>(self, event: Event<M, T, N>)
        requires
            self.wf(),
            self.expects(event),
        ensures
            ({
                let (post, action) = self.resumed(event);
                let over = self.at is HardBreak || self.at is Wake && (event matches Event::Woken(
                    None,
                ));
                let finished = self.at is Exclusive && (event matches Event::Polled(
                    Poll::Ready(_),
                ));
                let running = self.actor is Running;
                &&& over && self.exclusive is Some ==> if self.tasks.is_vacant() {
                    action is PollExclusive
                } else {
                    action == Action::<M>::Return(Poll::Pending)
                }
                &&& self.at is Exclusive && !finished ==> action == Action::<M>::Return(Poll::Pending)
                &&& finished || over && self.exclusive is None ==> {
                    &&& !post.extra_poll
                    &&& if running && self.futures.len() > 0 {
                        action == Action::<M>::PollFuture(0)
                    } else if running && self.streams.len() > 0 {
                        action == Action::<M>::PollStream(0) && post.at == Step::Stream(0, 0)
                    } else {
                        action is PollRecv
                    }
                }
            }),
    {
    }

    /// In one round every delayed message has its turn, one after the other, then every stream, and
    /// then the channel. A stream that is over does not take the turn of the next one.
    pub proof fn law_everything_has_its_turn<M>(self, event: Event<M, T, N>)
        requires
            self.wf(),
            self.expects(event),
            self.futures.len() < usize::MAX,
            self.streams.len() < usize::MAX,
        ensures
            ({
                let (post, action) = self.resumed(event);
                let running = self.actor is Running;
                let futures = self.futures.len();
                let streams = self.streams.len();
                match (self.at, event) {
                    (Step::Future(i), Event::Message(Poll::Pending)) if running && i + 1 < futures => {
                        action == Action::<M>::PollFuture((i + 1) as usize)
                    },
                    (Step::Future(i), Event::Message(Poll::Ready(None))) if running && i + 1
                        < futures => action == Action::<M>::PollFuture(i),
                    (Step::Future(_), Event::Message(Poll::Pending))
                    | (Step::Future(_), Event::Message(Poll::Ready(None))) => {
                        if running && streams > 0 {
                            action == Action::<M>::PollStream(0) && post.at == Step::Stream(0, 0)
                        } else {
                            action is PollRecv
                        }
                    },
                    (Step::Stream(i, _), Event::Message(Poll::Pending)) => {
                        if running && i + 1 < streams {
                            action == Action::<M>::PollStream((i + 1) as usize) && post.at
                                == Step::Stream((i + 1) as usize, 0)
                        } else {
                            action is PollRecv
                        }
                    },
                    (Step::Stream(i, _), Event::Message(Poll::Ready(None))) => {
                        if running && i + 2 < streams {
                            action == Action::<M>::PollStream((i + 1) as usize) && post.at
                                == Step::Stream((i + 1) as usize, 0)
                        } else {
                            action is PollRecv
                        }
                    },
                    _ => true,
                }
            }),
    {
    }

    /// After a concurrent message the place that it came from has its turn again: the delayed message
    /// that took its place, the same stream until its budget is spent, or the channel.
    pub proof fn law_origin_has_its_turn_again<M>(self, origin: Origin, task: T)
        requires
            self.wf(),
            self.streams.len() < usize::MAX,
        ensures
            self.at == Step::HandleRef(origin) ==> self.resumed(
                Event::<M, T, N>::Built(task),
            ).0.at == Step::Enqueue(origin),
            self.at == Step::Enqueue(origin) ==> {
                let (post, action) = self.resumed(Event::<M, T, N>::Done);
                let running = self.actor is Running;
                match origin {
                    Origin::Future(i) => {
                        if running && i < self.futures.len() {
                            action == Action::<M>::PollFuture(i)
                        } else if running && self.streams.len() > 0 {
                            action == Action::<M>::PollStream(0) && post.at == Step::Stream(0, 0)
                        } else {
                            action is PollRecv
                        }
                    },
                    Origin::Stream(i, n) => {
                        if running && n < STREAM_BUDGET {
                            action == Action::<M>::PollStream(i) && post.at == Step::Stream(i, n)
                        } else if running && i + 1 < self.streams.len() {
                            action == Action::<M>::PollStream((i + 1) as usize) && post.at
                                == Step::Stream((i + 1) as usize, 0)
                        } else {
                            action is PollRecv
                        }
                    },
                    Origin::Recv => action is PollRecv,
                }
            },
    {
    }

    /// The channel ends a round: with nothing to give it starts another one if one is wanted, and
    /// else the poll is over. When it is over the context ends as soon as no task is left.
    pub proof fn law_channel_ends_the_round<M>(self)
        requires
            self.wf(),
            self.at is Recv,
        ensures
            self.resumed(Event::<M, T, N>::Message(Poll::Pending)).1 == (if self.extra_poll {
                Action::<M>::PopWake
            } else {
                Action::Return(Poll::Pending)
            }),
            self.resumed(Event::<M, T, N>::Message(Poll::Ready(None))).1 == (if self.actor is Stop {
                Action::<M>::OnStop
            } else if self.extra_poll {
                Action::PopWake
            } else if !self.tasks.is_vacant() {
                Action::Return(Poll::Pending)
            } else {
                Action::OnStop
            }),
    {
    }

    /// Another round is wanted for a new concurrent task, for a stream whose budget is spent and for
    /// one that took the place of another, until the next round asks for new messages.
    pub proof fn law_another_round_is_wanted<M>(self, event: Event<M, T, N>)
        requires
            self.wf(),
        ensures
            self.polled::<M>().0.extra_poll == self.extra_poll,
            self.expects(event) ==> {
                let (post, action) = self.resumed(event);
                match self.at {
                    Step::HandleRef(_) => post.extra_poll,
                    Step::Enqueue(Origin::Stream(_, n)) if n == STREAM_BUDGET => post.extra_poll,
                    Step::Stream(i, _) if event matches Event::Message(Poll::Ready(None)) => {
                        post.extra_poll == (self.extra_poll || i + 1 < self.streams.len())
                    },
                    Step::Wake { .. } | Step::HardBreak | Step::Exclusive => {
                        if action is PollFuture || action is PollStream || action is PollRecv {
                            !post.extra_poll
                        } else {
                            post.extra_poll == self.extra_poll
                        }
                    },
                    _ => post.extra_poll == self.extra_poll,
                }
            },
    {
    }

    /// The first thing is the actor's `on_start`, and the last one its `on_stop`. The task of a hook
    /// is polled at once, and in every poll of the context until it is ready. The actor is running
    /// once `on_start` is finished, and the context is over once `on_stop` is.
    pub proof fn law_hooks_begin_and_end<M>(self, task: T)
        requires
            self.wf(),
        ensures
            self.at is Idle && self.phase is Starting ==> self.polled::<M>().1 == (if self.exclusive
                is Some {
                Action::<M>::PollExclusive
            } else {
                Action::OnStart
            }),
            self.at is Idle && self.phase is Stopping ==> self.polled::<M>().1 == (if self.exclusive
                is Some {
                Action::<M>::PollExclusive
            } else {
                Action::OnStop
            }),
            self.at is OnStart || self.at is OnStop ==> {
                let (post, action) = self.resumed(Event::<M, T, N>::Built(task));
                action is PollExclusive && post.phase == self.phase
            },
            self.at is Starting || self.at is Stopping ==> {
                let (rest, action) = self.resumed(Event::<M, T, N>::Polled(Poll::Pending));
                let (again, next) = rest.polled::<M>();
                &&& action == Action::<M>::Return(Poll::Pending)
                &&& next is PollExclusive
                &&& again == self
            },
            self.at is Starting ==> {
                let post = self.resumed(Event::<M, T, N>::Polled(Poll::Ready(()))).0;
                post.actor is Running && post.phase is Running
            },
            self.at is Stopping ==> self.resumed(Event::<M, T, N>::Polled(Poll::Ready(()))).1
                == Action::<M>::Return(Poll::Ready(())),
    {
    }

    /// The place of a stream that is over, or of a delayed message that is due, is taken by the last
    /// one, and all others keep their places.
    pub proof fn law_others_keep_their_places<M>(self, event: Event<M, T, N>, k: int)
        requires
            self.wf(),
            self.expects(event),
        ensures
            ({
                let post = self.resumed(event).0.streams;
                match (self.at, event) {
                    (Step::Stream(i, _), Event::Message(Poll::Ready(None))) => {
                        &&& post.len() == self.streams.len() - 1
                        &&& 0 <= k < post.len() ==> post[k] == (if k == i {
                            self.streams.last()
                        } else {
                            self.streams[k]
                        })
                    },
                    _ => post == self.streams,
                }
            }),
            ({
                let post = self.resumed(event).0.futures;
                match (self.at, event) {
                    (Step::Future(i), Event::Message(Poll::Ready(_))) => {
                        &&& post.len() == self.futures.len() - 1
                        &&& 0 <= k < post.len() ==> post[k] == (if k == i {
                            self.futures.last()
                        } else {
                            self.futures[k]
                        })
                    },
                    _ => post == self.futures,
                }
            }),
            self.polled::<M>().0.streams == self.streams,
            self.polled::<M>().0.futures == self.futures,
    {
    }

    /// A context is finished only once the task of the actor's `on_stop` is.
    pub proof fn law_finished_after_on_stop<M>(self, event: Event<M, T, N>)
        requires
            self.wf(),
            self.expects(event),
            self.resumed(event).1 == Action::<M>::Return(Poll::Ready(())),
        ensures
            self.at is Stopping,
            event matches Event::Polled(Poll::Ready(_)),
            self.resumed(event).0.actor !is Running,
    {
    }

    /// Whom to notify of the end changes only by an order to stop.
    pub proof fn law_notify_is_kept<M>(self, event: Event<M, T, N>)
        requires
            self.wf(),
        ensures
            self.polled::<M>().0.notify == self.notify,
            self.expects(event) ==> self.resumed(event).0.notify == self.notify || {
                &&& self.at is Recv
                &&& event matches Event::Message(
                    Poll::Ready(Some(ActorMessage::State(_, notify))),
                )
                &&& self.resumed(event).0.notify == Some(notify)
            },
    {
    }

    /// A stream that gave its budget of items in a row is not polled again in this round, and
    /// another round follows.
    pub proof fn law_stream_budget<M>(self, i: usize)
        requires
            self.wf(),
            self.at == Step::Enqueue(Origin::Stream(i, STREAM_BUDGET)),
            self.streams.len() <= usize::MAX,
        ensures
            self.resumed(Event::<M, T, N>::Done).1 != Action::<M>::PollStream(i),
            self.resumed(Event::<M, T, N>::Done).0.extra_poll,
    {
    }

    /// A stream that takes the place of one that is over is not forgotten: another round follows.
    pub proof fn law_swapped_stream_has_its_turn<M>(self, i: usize, n: usize)
        requires
            self.wf(),
            self.at == Step::Stream(i, n),
            i + 1 < self.streams.len(),
        ensures
            ({
                let post = self.resumed(Event::<M, T, N>::Message(Poll::Ready(None))).0;
                &&& post.streams[i as int] == self.streams.last()
                &&& post.extra_poll
            }),
    {
    }

    /// A context that wants another round does not return before it: once the channel has nothing
    /// more, the round starts, unless the actor is stopped and the channel is over.
    pub proof fn law_extra_poll_is_another_round<M>(self)
        requires
            self.wf(),
            self.at is Recv,
            self.extra_poll,
        ensures
            self.resumed(Event::<M, T, N>::Message(Poll::Pending)).1 is PopWake,
            self.actor !is Stop ==> self.resumed(
                Event::<M, T, N>::Message(Poll::Ready(None)),
            ).1 is PopWake,
    {
    }

    /// A new concurrent task is put into the wake queue, under the index by which it is known, and
    /// another round follows.
    pub proof fn law_new_task_is_woken<M>(self, origin: Origin, task: T)
        requires
            self.wf(),
            self.at == Step::HandleRef(origin),
            self.tasks.next_key() <= usize::MAX,
        ensures
            ({
                let (post, action) = self.resumed(Event::<M, T, N>::Built(task));
                &&& action matches Action::Enqueue(idx)
                &&& post.tasks.occupied(idx as int)
                &&& post.tasks.slots[idx as int] == Some(task)
                &&& post.extra_poll
            }),
    {
    }
}

/// The concurrent tasks, under the indices by which they are woken.
pub struct TaskRef<T>(Slab<T>);

impl<T> View for TaskRef<T> {
    type V = crate::util::slab::SlabView<T>;

    closed spec fn view(&self) -> crate::util::slab::SlabView<T> {
        self.0@
    }
}

impl<T> TaskRef<T> {
    pub closed spec fn wf(&self) -> bool {
        self.0.wf()
    }

    /// No tasks, with room for `capacity` of them.
    pub fn new(capacity: usize) -> (tasks: TaskRef<T>)
        ensures
            tasks.wf(),
            tasks@.slots == Seq::<Option<T>>::empty(),
            tasks@.free == Seq::<usize>::empty(),
    {
        TaskRef(Slab::with_capacity(capacity))
    }

    /// Adds a task and returns its index.
    pub fn add_task(&mut self, task: T) -> (idx: usize)
        requires
            old(self).wf(),
        ensures
            final(self).wf(),
            idx == old(self)@.next_key(),
            final(self)@ == old(self)@.inserted(task),
            final(self)@.wf(),
    {
        self.0.insert(task)
    }
}

/// The exclusive task.
pub struct TaskMut<T>(Option<T>);

impl<T> View for TaskMut<T> {
    type V = Option<T>;

    closed spec fn view(&self) -> Option<T> {
        self.0
    }
}

impl<T> TaskMut<T> {
    /// No task.
    pub fn new() -> (task: TaskMut<T>)
        ensures
            task@ == None::<T>,
    {
        TaskMut(None)
    }

    /// Drops the task.
    pub fn clear(&mut self)
        ensures
            final(self)@ == None::<T>,
    {
        self.0 = None;
    }

    /// Sets the task.
    pub fn add_task(&mut self, task: T)
        ensures
            final(self)@ == Some(task),
    {
        self.0 = Some(task);
    }
}

/// The context of an actor: what it runs and how far it is.
pub struct ContextFuture<T, F, S, N> {
    ctx: Context<F, S>,
    cache_mut: TaskMut<T>,
    cache_ref: TaskRef<T>,
    drop_notify: Option<N>,
    state: ContextState,
    extra_poll: bool,
    at: Step,
}

impl<T, F, S, N> View for ContextFuture<T, F, S, N> {
    type V = ContextView<T, F, S, N>;

    closed spec fn view(&self) -> ContextView<T, F, S, N> {
        ContextView {
            actor: self.ctx@.actor,
            futures: self.ctx@.futures,
            streams: self.ctx@.streams,
            exclusive: self.cache_mut@,
            tasks: self.cache_ref@,
            notify: self.drop_notify,
            phase: self.state,
            extra_poll: self.extra_poll,
            at: self.at,
        }
    }
}

impl<T, F, S, N> ContextFuture<T, F, S, N> {
    pub closed spec fn wf(&self) -> bool {
        self.cache_ref.wf() && self@.wf()
    }

    /// What a context waits for always fits how far it is, and the tasks that it has.
    pub proof fn law_rules_are_kept(&self)
        requires
            self.wf(),
        ensures
            self@.wf(),
    {
    }

    /// The context of an actor that has not started, with room for `size_hint` concurrent tasks.
    pub fn new(ctx: Context<F, S>, size_hint: usize) -> (fut: ContextFuture<T, F, S, N>)
        ensures
            fut.wf(),
            fut@ == (ContextView {
                actor: ctx@.actor,
                futures: ctx@.futures,
                streams: ctx@.streams,
                exclusive: None::<T>,
                tasks: fut@.tasks,
                notify: None::<N>,
                phase: ContextState::Starting,
                extra_poll: false,
                at: Step::Idle,
            }),
            fut@.tasks.slots == Seq::<Option<T>>::empty(),
            fut@.tasks.free == Seq::<usize>::empty(),
    {
        let fut = ContextFuture {
            ctx,
            cache_mut: TaskMut::new(),
            cache_ref: TaskRef::new(size_hint),
            drop_notify: None,
            state: ContextState::Starting,
            extra_poll: false,
            at: Step::Idle,
        };
        proof {
            fut.cache_ref.0.lemma_wf();
        }
        fut
    }

    /// The concurrent task under `idx`, to poll it.
    pub fn task(&mut self, idx: usize) -> (task: Option<&mut T>)
        requires
            old(self).wf(),
        ensures
            match task {
                Some(t) => {
                    &&& old(self)@.tasks.occupied(idx as int)
                    &&& old(self)@.tasks.slots[idx as int] == Some(*t)
                    &&& final(self)@.tasks.slots == old(self)@.tasks.slots.update(
                        idx as int,
                        Some(*final(t)),
                    )
                    &&& final(self)@.tasks.free == old(self)@.tasks.free
                },
                None => {
                    &&& !old(self)@.tasks.occupied(idx as int)
                    &&& final(self)@.tasks == old(self)@.tasks
                },
            },
            final(self).wf(),
            final(self)@ == (ContextView { tasks: final(self)@.tasks, ..old(self)@ }),
    {
        self.cache_ref.0.get_mut(idx)
    }

    /// The exclusive task, to poll it.
    pub fn exclusive(&mut self) -> (task: Option<&mut T>)
        requires
            old(self).wf(),
        ensures
            match task {
                Some(t) => {
                    &&& old(self)@.exclusive == Some(*t)
                    &&& final(self)@ == (ContextView { exclusive: Some(*final(t)), ..old(self)@ })
                },
                None => old(self)@.exclusive is None && final(self)@ == old(self)@,
            },
            final(self).wf(),
    {
        self.cache_mut.0.as_mut()
    }

    /// The delayed message at place `i`, to poll it.
    pub fn future(&mut self, i: usize) -> (future: &mut F)
        requires
            old(self).wf(),
            i < old(self)@.futures.len(),
        ensures
            *future == old(self)@.futures[i as int],
            final(self).wf(),
            final(self)@ == (ContextView {
                futures: old(self)@.futures.update(i as int, *final(future)),
                ..old(self)@
            }),
    {
        &mut self.ctx.future_cache[i]
    }

    /// The stream at place `i`, to poll it.
    pub fn stream(&mut self, i: usize) -> (stream: &mut S)
        requires
            old(self).wf(),
            i < old(self)@.streams.len(),
        ensures
            *stream == old(self)@.streams[i as int],
            final(self).wf(),
            final(self)@ == (ContextView {
                streams: old(self)@.streams.update(i as int, *final(stream)),
                ..old(self)@
            }),
    {
        &mut self.ctx.stream_cache[i]
    }

    /// The part of the context that the actor can reach. As long as nothing is taken out of it, and
    /// an actor that was stopped is not set running, the context keeps its rules.
    pub fn ctx(&mut self) -> (ctx: &mut Context<F, S>)
        requires
            old(self).wf(),
        ensures
            ctx@ == (crate::context::ContextData {
                actor: old(self)@.actor,
                futures: old(self)@.futures,
                streams: old(self)@.streams,
            }),
            final(self)@ == (ContextView {
                actor: final(ctx)@.actor,
                futures: final(ctx)@.futures,
                streams: final(ctx)@.streams,
                ..old(self)@
            }),
            final(ctx)@.futures.len() >= old(self)@.futures.len() && final(ctx)@.streams.len()
                >= old(self)@.streams.len() && (final(ctx)@.actor is Running
                ==> old(self)@.actor is Running) ==> final(self).wf(),
    {
        &mut self.ctx
    }

    /// Whether the actor is running.
    pub fn is_running(&self) -> (running: bool)
        ensures
            running == self@.actor is Running,
    {
        self.ctx.state == ActorState::Running
    }

    /// Drops all tasks, delayed messages and streams, whatever the context waited for. The next
    /// poll starts over.
    pub fn clear_cache(&mut self)
        requires
            old(self).wf(),
        ensures
            final(self).wf(),
            final(self)@ == (ContextView {
                exclusive: None,
                tasks: final(self)@.tasks,
                futures: Seq::empty(),
                streams: Seq::empty(),
                at: Step::Idle,
                ..old(self)@
            }),
            final(self)@.tasks.slots == Seq::<Option<T>>::empty(),
            final(self)@.tasks.free == Seq::<usize>::empty(),
    {
        self.cache_mut.clear();
        self.cache_ref.0.clear();
        self.ctx.future_cache.clear();
        self.ctx.stream_cache.clear();
        self.at = Step::Idle;
        proof {
            self.cache_ref.0.lemma_wf();
            assert(self@.futures =~= Seq::<F>::empty());
            assert(self@.streams =~= Seq::<S>::empty());
        }
    }

    /// Gives up the context. Returns who is to be notified of it.
    pub fn drop(self) -> (notify: Option<N>)
        ensures
            notify == self@.notify,
    {
        self.drop_notify
    }

    fn done<M>(&mut self, poll: Poll<()>) -> (action: Action<M>)
        ensures
            (final(self)@, action) == old(self)@.done::<M>(poll),
            final(self).cache_ref == old(self).cache_ref,
    {
        self.at = Step::Idle;
        Action::Return(poll)
    }

    fn round<M>(&mut self) -> (action: Action<M>)
        requires
            old(self).cache_ref.wf(),
        ensures
            (final(self)@, action) == old(self)@.round::<M>(),
            final(self).cache_ref == old(self).cache_ref,
    {
        let len: usize = self.cache_ref.0.len();
        self.at = Step::Wake { len, polled: 0 };
        Action::PopWake
    }

    fn looked_at<M>(&mut self, len: usize, polled: usize) -> (action: Action<M>)
        ensures
            (final(self)@, action) == old(self)@.looked_at::<M>(len, polled),
            final(self).cache_ref == old(self).cache_ref,
    {
        let polled: usize = polled.wrapping_add(1);
        if polled == len {
            self.at = Step::HardBreak;
            Action::WakeSelf
        } else {
            self.at = Step::Wake { len, polled };
            Action::PopWake
        }
    }

    fn exclusive_turn<M>(&mut self) -> (action: Action<M>)
        requires
            old(self).cache_ref.wf(),
        ensures
            (final(self)@, action) == old(self)@.exclusive_turn::<M>(),
            final(self).cache_ref == old(self).cache_ref,
    {
        if self.cache_mut.0.is_some() {
            if self.cache_ref.0.is_empty() {
                self.at = Step::Exclusive;
                Action::PollExclusive
            } else {
                // still have concurrent messages. finish them.
                self.done(Poll::Pending)
            }
        } else {
            self.message_turn()
        }
    }

    fn message_turn<M>(&mut self) -> (action: Action<M>)
        ensures
            (final(self)@, action) == old(self)@.message_turn::<M>(),
            final(self).cache_ref == old(self).cache_ref,
    {
        // reset extra_poll
        self.extra_poll = false;
        self.future_turn(0)
    }

    fn future_turn<M>(&mut self, i: usize) -> (action: Action<M>)
        ensures
            (final(self)@, action) == old(self)@.future_turn::<M>(i as int),
            final(self).cache_ref == old(self).cache_ref,
    {
        // If context is stopped we stop dealing with future and stream messages.
        if self.ctx.state == ActorState::Running && i < self.ctx.future_cache.len() {
            self.at = Step::Future(i);
            Action::PollFuture(i)
        } else {
            self.stream_turn(0)
        }
    }

    fn stream_turn<M>(&mut self, i: usize) -> (action: Action<M>)
        ensures
            (final(self)@, action) == old(self)@.stream_turn::<M>(i as int),
            final(self).cache_ref == old(self).cache_ref,
    {
        if self.ctx.state == ActorState::Running && i < self.ctx.stream_cache.len() {
            self.at = Step::Stream(i, 0);
            Action::PollStream(i)
        } else {
            self.recv_turn()
        }
    }

    fn recv_turn<M>(&mut self) -> (action: Action<M>)
        ensures
            (final(self)@, action) == old(self)@.recv_turn::<M>(),
            final(self).cache_ref == old(self).cache_ref,
    {
        self.at = Step::Recv;
        Action::PollRecv
    }

    fn back_to<M>(&mut self, origin: Origin) -> (action: Action<M>)
        requires
            old(self)@.comes_from(origin),
        ensures
            (final(self)@, action) == old(self)@.back_to::<M>(origin),
            final(self).cache_ref == old(self).cache_ref,
    {
        match origin {
            Origin::Future(i) => self.future_turn(i),
            Origin::Stream(i, n) => {
                // force to yield when having 16 consecutive successful poll.
                if n == STREAM_BUDGET {
                    assert(self.ctx.stream_cache.len() == self@.streams.len());
                    // set extra poll flag to true when force yield happens.
                    self.extra_poll = true;
                    self.stream_turn(i + 1)
                } else if self.ctx.state != ActorState::Running {
                    self.recv_turn()
                } else {
                    self.at = Step::Stream(i, n);
                    Action::PollStream(i)
                }
            },
            Origin::Recv => self.recv_turn(),
        }
    }

    fn closing<M>(&mut self) -> (action: Action<M>)
        ensures
            (final(self)@, action) == old(self)@.closing::<M>(),
            final(self).cache_ref == old(self).cache_ref,
    {
        self.state = ContextState::Stopping;
        if self.cache_mut.0.is_some() {
            self.at = Step::Stopping;
            Action::PollExclusive
        } else {
            self.at = Step::OnStop;
            Action::OnStop
        }
    }

    fn message<M>(&mut self, msg: ActorMessage<M, N>, origin: Origin) -> (action: Action<M>)
        ensures
            (final(self)@, action) == old(self)@.message(msg, origin),
            final(self).cache_ref == old(self).cache_ref,
    {
        match msg {
            // new concurrent message.
            ActorMessage::Ref(m) => {
                self.at = Step::HandleRef(origin);
                Action::HandleRef(m)
            },
            // new exclusive message. No new messages should be accepted until this one is
            // resolved.
            ActorMessage::Mut(m) => {
                self.at = Step::HandleMut;
                Action::HandleMut(m)
            },
            // stopping messages received.
            ActorMessage::State(state, notify) => {
                // a one shot sender to to notify the caller shut down is complete.
                self.drop_notify = Some(notify);
                self.at = Step::Close(state);
                Action::CloseRecv
            },
        }
    }

    /// Whether a task is left.
    fn have_cache(&self) -> (have: bool)
        requires
            self.cache_ref.wf(),
        ensures
            have == (!self@.tasks.is_vacant() || self@.exclusive is Some),
    {
        !self.cache_ref.0.is_empty() || self.cache_mut.0.is_some()
    }

    fn drained<M>(&mut self) -> (action: Action<M>)
        requires
            old(self).cache_ref.wf(),
        ensures
            (final(self)@, action) == old(self)@.drained::<M>(),
            final(self).cache_ref == old(self).cache_ref,
    {
        let state = self.ctx.state;
        self.ctx.state = ActorState::StopGraceful;
        if state == ActorState::Stop {
            self.closing()
        } else if self.extra_poll {
            // have new concurrent message. poll another round.
            self.round()
        } else if self.have_cache() {
            // wait for unfinished messages to resolve.
            self.done(Poll::Pending)
        } else {
            // goes to stopping state.
            self.closing()
        }
    }

    /// Begins a poll of the context. Returns what is to be done first.
    pub fn poll<M>(&mut self) -> (action: Action<M>)
        requires
            old(self).wf(),
            old(self)@.at is Idle,
        ensures
            final(self).wf(),
            (final(self)@, action) == old(self)@.polled::<M>(),
    {
        match self.state {
            ContextState::Running => self.round(),
            ContextState::Starting => {
                if self.cache_mut.0.is_some() {
                    self.at = Step::Starting;
                    Action::PollExclusive
                } else {
                    self.at = Step::OnStart;
                    Action::OnStart
                }
            },
            ContextState::Stopping => self.closing(),
        }
    }

    /// Goes on after an event. Returns what is to be done next.
    pub fn resume<M>(&mut self, event: Event<M, T, N>) -> (action: Action<M>)
        requires
            old(self).wf(),
            old(self)@.expects(event),
        ensures
            final(self).wf(),
            (final(self)@, action) == old(self)@.resumed(event),
    {
        match self.state {
            ContextState::Starting => self.poll_start(event),
            ContextState::Running => self.poll_running(event),
            ContextState::Stopping => self.poll_close(event),
        }
    }

    /// Goes on with the hook of the actor for the start.
    fn poll_start<M>(&mut self, event: Event<M, T, N>) -> (action: Action<M>)
        requires
            old(self).wf(),
            old(self)@.expects(event),
            old(self)@.phase is Starting,
        ensures
            final(self).wf(),
            (final(self)@, action) == old(self)@.resumed(event),
    {
        match event {
            Event::Built(task) => {
                self.cache_mut.add_task(task);
                self.at = Step::Starting;
                Action::PollExclusive
            },
            Event::Polled(Poll::Ready(())) => {
                self.cache_mut.clear();
                self.ctx.state = ActorState::Running;
                self.state = ContextState::Running;
                self.round()
            },
            _ => self.done(Poll::Pending),
        }
    }

    /// Goes on with the hook of the actor for the end.
    fn poll_close<M>(&mut self, event: Event<M, T, N>) -> (action: Action<M>)
        requires
            old(self).wf(),
            old(self)@.expects(event),
            old(self)@.phase is Stopping,
        ensures
            final(self).wf(),
            (final(self)@, action) == old(self)@.resumed(event),
    {
        match event {
            Event::Built(task) => {
                self.cache_mut.add_task(task);
                self.at = Step::Stopping;
                Action::PollExclusive
            },
            Event::Polled(Poll::Ready(())) => {
                self.cache_mut.clear();
                self.done(Poll::Ready(()))
            },
            _ => self.done(Poll::Pending),
        }
    }

    /// Adds the task of a message to the concurrent handler.
    fn add_concurrent<M>(&mut self, task: T, origin: Origin) -> (action: Action<M>)
        requires
            old(self).wf(),
            old(self)@.at == Step::HandleRef(origin),
        ensures
            final(self).wf(),
            (final(self)@, action) == old(self)@.resumed(Event::<M, T, N>::Built(task)),
    {
        // when adding new concurrent message we always want an extra poll to register them.
        self.extra_poll = true;
        let idx = self.cache_ref.add_task(task);
        self.at = Step::Enqueue(origin);
        Action::Enqueue(idx)
    }

    /// Sets the task of a message to the exclusive handler, for which another round starts.
    fn add_exclusive<M>(&mut self, task: T) -> (action: Action<M>)
        requires
            old(self).wf(),
            old(self)@.at is HandleMut,
        ensures
            final(self).wf(),
            (final(self)@, action) == old(self)@.resumed(Event::<M, T, N>::Built(task)),
    {
        self.cache_mut.add_task(task);
        self.round()
    }

    /// Goes on with the tasks and messages of a running actor.
    fn poll_running<M>(&mut self, event: Event<M, T, N>) -> (action: Action<M>)
        requires
            old(self).wf(),
            old(self)@.expects(event),
            old(self)@.phase is Running,
        ensures
            final(self).wf(),
            (final(self)@, action) == old(self)@.resumed(event),
    {
        match self.at {
            // poll concurrent messages that were woken.
            Step::Wake { len, polled } => match event {
                Event::Woken(Some(idx)) => {
                    if self.cache_ref.0.contains(idx) {
                        self.at = Step::Task { idx, len, polled };
                        Action::PollTask(idx)
                    } else {
                        self.looked_at(len, polled)
                    }
                },
                _ => self.exclusive_turn(),
            },
            Step::Task { idx, len, polled } => {
                // remove the resolved tasks.
                match event {
                    Event::Polled(Poll::Ready(())) => {
                        let _ = self.cache_ref.0.remove(idx);
                        proof {
                            self.cache_ref.0.lemma_wf();
                        }
                    },
                    _ => {},
                }
                self.looked_at(len, polled)
            },
            Step::HardBreak => self.exclusive_turn(),
            // poll exclusive message and remove it when success.
            Step::Exclusive => match event {
                Event::Polled(Poll::Ready(())) => {
                    self.cache_mut.clear();
                    self.message_turn()
                },
                _ => self.done(Poll::Pending),
            },
            // poll future messages
            Step::Future(i) => {
                assert(self.ctx.future_cache.len() == self@.futures.len());
                match event {
                    Event::Message(Poll::Ready(msg)) => {
                        let _ = self.ctx.future_cache.swap_remove(i);
                        match msg {
                            Some(msg) => self.message(msg, Origin::Future(i)),
                            // Message is canceled by ContextJoinHandle. Ignore it.
                            None => self.future_turn(i),
                        }
                    },
                    _ => self.future_turn(i + 1),
                }
            },
            // poll stream message.
            Step::Stream(i, n) => {
                assert(self.ctx.stream_cache.len() == self@.streams.len());
                match event {
                    Event::Message(Poll::Ready(Some(msg))) => self.message(
                        msg,
                        Origin::Stream(i, n + 1),
                    ),
                    // stream is either canceled by ContextJoinHandle or finished.
                    Event::Message(Poll::Ready(None)) => {
                        let _ = self.ctx.stream_cache.swap_remove(i);
                        // the last stream takes its place, and is polled in another round.
                        if i < self.ctx.stream_cache.len() {
                            self.extra_poll = true;
                        }
                        self.stream_turn(i + 1)
                    },
                    _ => self.stream_turn(i + 1),
                }
            },
            // actively drain receiver channel for incoming messages.
            Step::Recv => match event {
                Event::Message(Poll::Ready(Some(msg))) => self.message(msg, Origin::Recv),
                // channel is closed
                Event::Message(Poll::Ready(None)) => self.drained(),
                _ => {
                    // have new concurrent message. poll another round.
                    if self.extra_poll {
                        self.round()
                    } else {
                        self.done(Poll::Pending)
                    }
                },
            },
            Step::HandleRef(origin) => match event {
                Event::Built(task) => self.add_concurrent(task, origin),
                _ => self.done(Poll::Pending),
            },
            Step::Enqueue(origin) => self.back_to(origin),
            Step::HandleMut => match event {
                Event::Built(task) => self.add_exclusive(task),
                _ => self.done(Poll::Pending),
            },
            Step::Close(state) => {
                self.ctx.state = ActorState::StopGraceful;
                if state == ActorState::Stop {
                    // goes to stopping state if it's a force shut down.
                    // otherwise keep the loop until we drain the channel.
                    self.closing()
                } else {
                    self.recv_turn()
                }
            },
            _ => self.done(Poll::Pending),
        }
    }
}

} // verus!
