//! What an actor can reach while it handles messages, and a context that polls every task in every
//! round.
//!
//! A `ContextFuture` decides and somebody else acts: `poll` and `resume` return what is to be done
//! next, and `resume` is told what came of it, until a poll of the context is over.

use core::time::Duration;

use vstd::prelude::*;

use crate::actor::ActorState;
use crate::address::Addr;
use crate::context_future::ContextState;
use crate::message::{
    ActorMessage, ActorMessageClone, FutureMessage, IntervalMessage, StreamContainer,
    StreamMessage, Via,
};
use crate::runtime::RuntimeService;
use crate::util::channel::{Channel, Receiver};
use crate::util::futures::Poll;
use crate::util::oneshot::{oneshot, Oneshot, OneshotSender};

verus! {

/// a join handle can be used to cancel a spawned async task like interval closure and stream
/// handler
pub struct ContextJoinHandle {
    pub handle: OneshotSender,
}

impl ContextJoinHandle {
    /// Cancel the task associate to this handle.
    pub fn cancel<W>(self, channel: &mut Oneshot<(), W>, woken: &mut Vec<W>)
        requires
            self.handle.channel() == old(channel)@.id,
            old(channel)@.sender,
        ensures
            final(channel)@ == old(channel)@.sent(()),
            final(woken)@ == (if old(channel)@.receiver {
                old(woken)@ + old(channel)@.woken()
            } else {
                old(woken)@
            }),
    {
        let _ = self.handle.send(channel, (), woken);
    }

    /// Check if the task associate with this handle is terminated.
    ///
    /// This happens when the task is finished or the thread task runs on is recovered from a
    /// panic.
    pub fn is_terminated<W>(&self, channel: &Oneshot<(), W>) -> (terminated: bool)
        requires
            self.handle.channel() == channel@.id,
        ensures
            terminated == is_terminated(channel@),
    {
        self.handle.is_closed(channel)
    }
}

/// The task whose join handle has this channel is terminated: it has let go of its end.
pub open spec fn is_terminated<W>(channel: crate::util::oneshot::OneshotView<(), W>) -> bool {
    !channel.receiver
}

/// A task is not terminated as long as its context holds it, whether it is polled, canceled or
/// detached meanwhile, and is from the moment that it is over or dropped on.
pub proof fn law_terminated_with_the_task<W>(
    id: int,
    handle: Option<crate::util::oneshot::OneshotReceiver>,
    channel: crate::util::oneshot::OneshotView<(), W>,
    waker: W,
)
    requires
        handle is Some,
    ensures
        !is_terminated(crate::util::oneshot::OneshotView::<(), W>::fresh(id)),
        !is_terminated(channel) ==> {
            &&& !is_terminated(channel.polled(waker))
            &&& !is_terminated(channel.sent(()))
            &&& !is_terminated(channel.abandoned())
        },
        is_terminated(crate::message::released(handle, channel)),
        is_terminated(channel) ==> {
            &&& is_terminated(channel.polled(waker))
            &&& is_terminated(channel.sent(()))
            &&& is_terminated(channel.abandoned())
            &&& is_terminated(channel.closed())
        },
{
}

/// What a context is to its actor: the state of the actor, the delayed messages and the streams.
pub ghost struct ContextData<F, S> {
    pub actor: ActorState,
    pub futures: Seq<F>,
    pub streams: Seq<S>,
}

/// Context type of an actor. Used to mutate the state of actor and add additional tasks to actor.
pub struct Context<F, S> {
    pub state: ActorState,
    pub future_cache: Vec<F>,
    pub stream_cache: Vec<S>,
}

impl<F, S> View for Context<F, S> {
    type V = ContextData<F, S>;

    open spec fn view(&self) -> ContextData<F, S> {
        ContextData {
            actor: self.state,
            futures: self.future_cache@,
            streams: self.stream_cache@,
        }
    }
}

impl<F, S> Context<F, S> {
    /// The context of an actor that does not run yet.
    pub fn new() -> (ctx: Context<F, S>)
        ensures
            ctx@ == (ContextData {
                actor: ActorState::Stop,
                futures: Seq::<F>::empty(),
                streams: Seq::<S>::empty(),
            }),
    {
        let ctx = Context {
            state: ActorState::Stop,
            future_cache: Vec::with_capacity(8),
            stream_cache: Vec::with_capacity(8),
        };
        assert(ctx@.futures =~= Seq::<F>::empty());
        assert(ctx@.streams =~= Seq::<S>::empty());
        ctx
    }

    /// stop the context. It would end the actor gracefully by close the channel draining all
    /// remaining messages.
    ///
    /// *. In the case of using `Supervisor`. This method would stop all actor instances at the
    /// same time
    pub fn stop<T, W>(&mut self, rx: &Receiver, channel: &mut Channel<T, W>, woken: &mut Vec<W>)
        requires
            old(channel).wf(),
            rx.channel() == old(channel)@.id,
        ensures
            final(self)@ == (ContextData { actor: ActorState::StopGraceful, ..old(self)@ }),
            final(channel).wf(),
            final(channel)@ == old(channel)@.close(),
            final(woken)@ == old(woken)@ + old(channel)@.close_wakers(),
    {
        rx.close(channel, woken);
        self.state = ActorState::StopGraceful;
    }

    /// get the address of actor from context.
    pub fn address<T, W>(&self, rx: &Receiver, channel: &mut Channel<T, W>) -> (addr: Option<Addr>)
        requires
            old(channel).wf(),
            rx.channel() == old(channel)@.id,
            old(channel)@.queue.closed || old(channel)@.senders <= usize::MAX / 2,
        ensures
            final(channel).wf(),
            addr is Some <==> !old(channel)@.queue.closed,
            addr matches Some(a) ==> a.channel() == rx.channel(),
            final(channel)@ == (if addr is Some {
                crate::util::channel::ChannelView {
                    senders: old(channel)@.senders + 1,
                    ..old(channel)@
                }
            } else {
                old(channel)@
            }),
    {
        Addr::from_recv(rx, channel)
    }

    /// Whether the actor is running.
    pub fn is_running(&self) -> (running: bool)
        ensures
            running == self@.actor is Running,
    {
        self.state == ActorState::Running
    }
}

impl<RT: RuntimeService, M, N, C: Clone, X> Context<
    FutureMessage<RT, M, N>,
    StreamMessage<RT, C, StreamContainer<X>>,
> {
    /// run interval concurrent closure on context. `Handler::handle` will be called.
    pub fn run_interval<W>(&mut self, dur: Duration, msg: C) -> (task: (
        ContextJoinHandle,
        Oneshot<(), W>,
    ))
        ensures
            task.1@ == crate::util::oneshot::OneshotView::<(), W>::fresh(task.1@.id),
            task.0.handle.channel() == task.1@.id,
            old(self)@.has_interval(final(self)@, dur, ActorMessageClone::Ref(msg), task.1@.id),
    {
        self.interval(dur, ActorMessageClone::Ref(msg))
    }

    /// run interval exclusive closure on context. `Handler::handle_wait` will be called.
    /// If `Handler::handle_wait` is not override `Handler::handle` will be called as fallback.
    pub fn run_wait_interval<W>(&mut self, dur: Duration, msg: C) -> (task: (
        ContextJoinHandle,
        Oneshot<(), W>,
    ))
        ensures
            task.1@ == crate::util::oneshot::OneshotView::<(), W>::fresh(task.1@.id),
            task.0.handle.channel() == task.1@.id,
            old(self)@.has_interval(final(self)@, dur, ActorMessageClone::Mut(msg), task.1@.id),
    {
        self.interval(dur, ActorMessageClone::Mut(msg))
    }

    fn interval<W>(&mut self, dur: Duration, msg: ActorMessageClone<C>) -> (task: (
        ContextJoinHandle,
        Oneshot<(), W>,
    ))
        ensures
            task.1@ == crate::util::oneshot::OneshotView::<(), W>::fresh(task.1@.id),
            task.0.handle.channel() == task.1@.id,
            old(self)@.has_interval(final(self)@, dur, msg, task.1@.id),
    {
        let (channel, handle, rx) = oneshot();
        let msg = IntervalMessage::new(dur, rx, msg);
        self.stream_cache.push(StreamMessage::new_interval(msg));
        assert(self@.streams.drop_last() =~= old(self)@.streams);
        (ContextJoinHandle { handle }, channel)
    }

    /// run concurrent closure on context after given duration. `Handler::handle` will be called.
    pub fn run_later<W>(&mut self, dur: Duration, msg: M) -> (task: (
        ContextJoinHandle,
        Oneshot<(), W>,
    ))
        ensures
            task.1@ == crate::util::oneshot::OneshotView::<(), W>::fresh(task.1@.id),
            task.0.handle.channel() == task.1@.id,
            old(self)@.has_later(final(self)@, dur, ActorMessage::Ref(msg), task.1@.id),
    {
        self.later(dur, ActorMessage::Ref(msg))
    }

    /// run exclusive closure on context after given duration. `Handler::handle_wait` will be
    /// called.
    /// If `Handler::handle_wait` is not override `Handler::handle` will be called as fallback.
    pub fn run_wait_later<W>(&mut self, dur: Duration, msg: M) -> (task: (
        ContextJoinHandle,
        Oneshot<(), W>,
    ))
        ensures
            task.1@ == crate::util::oneshot::OneshotView::<(), W>::fresh(task.1@.id),
            task.0.handle.channel() == task.1@.id,
            old(self)@.has_later(final(self)@, dur, ActorMessage::Mut(msg), task.1@.id),
    {
        self.later(dur, ActorMessage::Mut(msg))
    }

    fn later<W>(&mut self, dur: Duration, msg: ActorMessage<M, N>) -> (task: (
        ContextJoinHandle,
        Oneshot<(), W>,
    ))
        ensures
            task.1@ == crate::util::oneshot::OneshotView::<(), W>::fresh(task.1@.id),
            task.0.handle.channel() == task.1@.id,
            old(self)@.has_later(final(self)@, dur, msg, task.1@.id),
    {
        let (channel, handle, rx) = oneshot();
        self.future_cache.push(FutureMessage::new(dur, rx, msg));
        assert(self@.futures.drop_last() =~= old(self)@.futures);
        (ContextJoinHandle { handle }, channel)
    }

    /// add a stream to context. multiple stream can be added to one context.
    ///
    /// stream item will be treated as concurrent message and `Handler::handle` will be called.
    /// If `Handler::handle_wait` is not override `Handler::handle` will be called as fallback.
    ///
    /// *. Stream would force closed when the actor is stopped. Either by dropping all `Addr` or
    /// calling `Addr::stop`
    pub fn add_stream<W>(&mut self, stream: X) -> (task: (ContextJoinHandle, Oneshot<(), W>))
        ensures
            task.1@ == crate::util::oneshot::OneshotView::<(), W>::fresh(task.1@.id),
            task.0.handle.channel() == task.1@.id,
            old(self)@.has_stream(final(self)@, stream, Via::Ref, task.1@.id),
    {
        self.stream(stream, Via::Ref)
    }

    /// add a stream to context. multiple stream can be added to one context.
    ///
    /// stream item will be treated as exclusive message and `Handler::handle_wait` will be called.
    pub fn add_wait_stream<W>(&mut self, stream: X) -> (task: (ContextJoinHandle, Oneshot<(), W>))
        ensures
            task.1@ == crate::util::oneshot::OneshotView::<(), W>::fresh(task.1@.id),
            task.0.handle.channel() == task.1@.id,
            old(self)@.has_stream(final(self)@, stream, Via::Mut, task.1@.id),
    {
        self.stream(stream, Via::Mut)
    }

    fn stream<W>(&mut self, stream: X, f: Via) -> (task: (ContextJoinHandle, Oneshot<(), W>))
        ensures
            task.1@ == crate::util::oneshot::OneshotView::<(), W>::fresh(task.1@.id),
            task.0.handle.channel() == task.1@.id,
            old(self)@.has_stream(final(self)@, stream, f, task.1@.id),
    {
        let (channel, handle, rx) = oneshot();
        let stream = StreamContainer::new(stream, rx, f);
        self.stream_cache.push(StreamMessage::new_boxed(stream));
        assert(self@.streams.drop_last() =~= old(self)@.streams);
        (ContextJoinHandle { handle }, channel)
    }
}

impl<RT: RuntimeService, M, N, C, X> ContextData<
    FutureMessage<RT, M, N>,
    StreamMessage<RT, C, StreamContainer<X>>,
> {
    /// What is added to a context is there afterwards, at the end: the message or the stream that was
    /// given, for the handler that was asked for, due when it was asked to be, and with the receiver
    /// of its own join handle. What was there before stays, and the actor is as it was.
    pub proof fn law_added_task_is_there(
        self,
        post: Self,
        dur: Duration,
        later: ActorMessage<M, N>,
        again: ActorMessageClone<C>,
        stream: X,
        f: Via,
        id: int,
        k: int,
    )
        ensures
            self.has_later(post, dur, later, id) ==> {
                let added = post.futures.last();
                &&& post.futures.len() == self.futures.len() + 1
                &&& 0 <= k < self.futures.len() ==> post.futures[k] == self.futures[k]
                &&& added.msg == Some(later)
                &&& crate::runtime::lasts::<RT>(added.delay, dur)
                &&& added.handle is Some
                &&& added.handle->0.channel() == id
                &&& post.streams == self.streams
                &&& post.actor == self.actor
            },
            self.has_interval(post, dur, again, id) ==> {
                let added = post.streams.last();
                &&& post.streams.len() == self.streams.len() + 1
                &&& 0 <= k < self.streams.len() ==> post.streams[k] == self.streams[k]
                &&& added is Interval
                &&& added->Interval_0.msg == again
                &&& added->Interval_0.dur == dur
                &&& crate::runtime::lasts::<RT>(added->Interval_0.delay, dur)
                &&& added->Interval_0.handle is Some
                &&& added->Interval_0.handle->0.channel() == id
                &&& post.futures == self.futures
                &&& post.actor == self.actor
            },
            self.has_stream(post, stream, f, id) ==> {
                let added = post.streams.last();
                &&& post.streams.len() == self.streams.len() + 1
                &&& 0 <= k < self.streams.len() ==> post.streams[k] == self.streams[k]
                &&& added is Boxed
                &&& added->Boxed_0.stream == stream
                &&& added->Boxed_0.f == f
                &&& added->Boxed_0.handle is Some
                &&& added->Boxed_0.handle->0.channel() == id
                &&& post.futures == self.futures
                &&& post.actor == self.actor
            },
    {
        if self.has_later(post, dur, later, id) && 0 <= k < self.futures.len() {
            assert(post.futures.drop_last()[k] == self.futures[k]);
        }
        if (self.has_interval(post, dur, again, id) || self.has_stream(post, stream, f, id)) && 0
            <= k < self.streams.len() {
            assert(post.streams.drop_last()[k] == self.streams[k]);
        }
    }

    /// `post` has one more message that is due after `dur` and can be canceled through the channel
    /// `id`, and nothing else has changed.
    pub open spec fn has_later(
        self,
        post: Self,
        dur: Duration,
        msg: ActorMessage<M, N>,
        id: int,
    ) -> bool {
        &&& post.futures.len() == self.futures.len() + 1
        &&& post.futures.drop_last() == self.futures
        &&& crate::runtime::lasts::<RT>(post.futures.last().delay, dur)
        &&& post.futures.last().handle matches Some(rx)
        &&& rx.channel() == id
        &&& post.futures.last().msg == Some(msg)
        &&& post.streams == self.streams
        &&& post.actor == self.actor
    }

    /// `post` has one more message that is due every `dur` and can be canceled through the channel
    /// `id`, and nothing else has changed.
    pub open spec fn has_interval(
        self,
        post: Self,
        dur: Duration,
        msg: ActorMessageClone<C>,
        id: int,
    ) -> bool {
        &&& post.streams.len() == self.streams.len() + 1
        &&& post.streams.drop_last() == self.streams
        &&& post.streams.last() matches StreamMessage::Interval(interval)
        &&& interval.dur == dur
        &&& crate::runtime::lasts::<RT>(interval.delay, dur)
        &&& interval.handle matches Some(rx)
        &&& rx.channel() == id
        &&& interval.msg == msg
        &&& post.futures == self.futures
        &&& post.actor == self.actor
    }

    /// `post` has one more stream, for the handler `f`, that can be canceled through the channel
    /// `id`, and nothing else has changed.
    pub open spec fn has_stream(self, post: Self, stream: X, f: Via, id: int) -> bool {
        &&& post.streams.len() == self.streams.len() + 1
        &&& post.streams.drop_last() == self.streams
        &&& post.streams.last() matches StreamMessage::Boxed(container)
        &&& container.stream == stream
        &&& container.handle matches Some(rx)
        &&& rx.channel() == id
        &&& container.f == f
        &&& post.futures == self.futures
        &&& post.actor == self.actor
    }
}

/// Where a message for the concurrent handler came from.
#[derive(Clone, Copy, Debug, PartialEq, Eq, Structural)]
pub enum Origin {
    /// A delayed message; the one at this place is the next to look at.
    Future(usize),
    /// The stream at this place, which may have more.
    Stream(usize),
    /// The channel.
    Recv,
}

/// What a context waits for.
#[derive(Clone, Copy, Debug, PartialEq, Eq, Structural)]
pub enum Step {
    /// The next poll.
    Idle,
    /// A poll of a concurrent task.
    Task(usize),
    /// A poll of the exclusive task.
    Exclusive,
    /// A poll of a delayed message.
    Future(usize),
    /// A poll of a stream.
    Stream(usize),
    /// A poll of the channel.
    Recv,
    /// The task for a message to the concurrent handler.
    HandleRef(Origin),
    /// The task for a message to the exclusive handler.
    HandleMut,
    /// The end of the channel, after an order to stop.
    CloseOnOrder(ActorState),
    /// The end of the channel, which is drained.
    CloseDrained,
    /// The task of `on_start` or `on_stop`.
    Hook,
    /// A poll of the task of `on_start` or `on_stop`.
    PollHook,
}

/// What is to be done next.
#[derive(Debug, PartialEq, Eq)]
pub enum Action<M> {
    /// Poll the concurrent task at this place.
    PollTask(usize),
    /// Poll the exclusive task.
    PollExclusive,
    /// Poll the delayed message at this place.
    PollFuture(usize),
    /// Poll the stream at this place.
    PollStream(usize),
    /// Poll the channel.
    PollRecv,
    /// Hand the message to the concurrent handler.
    HandleRef(M),
    /// Hand the message to the exclusive handler.
    HandleMut(M),
    /// Close the channel.
    CloseRecv,
    /// Call the actor's `on_start`.
    OnStart,
    /// Call the actor's `on_stop`.
    OnStop,
    /// Poll the task of the hook.
    PollHook,
    /// The poll of the context is over.
    Return(Poll<()>),
}

/// What came of an action.
#[derive(Debug, PartialEq, Eq)]
pub enum Event<M, T, N> {
    /// The outcome of a poll of a task.
    Polled(Poll<()>),
    /// The outcome of a poll of a delayed message, a stream or the channel.
    Message(Poll<Option<ActorMessage<M, N>>>),
    /// The task that a handler or a hook of the actor returned.
    Built(T),
    /// It is done.
    Done,
}

/// What a context is: the part that its actor can reach, the exclusive task, the concurrent tasks,
/// the task of a hook, whom to notify of the end, its phase, whether it wants another round, and
/// what it waits for.
pub ghost struct ContextView<T, F, S, N> {
    pub ctx: ContextData<F, S>,
    pub exclusive: Option<T>,
    pub tasks: Seq<T>,
    pub hook: Option<T>,
    pub notify: Option<N>,
    pub phase: ContextState,
    pub extra_poll: bool,
    pub at: Step,
}

impl<T, F, S, N> ContextView<T, F, S, N> {
    /// What a context waits for fits its phase and its tasks. While it runs no hook is pending.
    pub open spec fn wf(self) -> bool {
        &&& self.phase is Running ==> self.hook is None
        &&& match self.at {
            Step::Idle => true,
            Step::Task(i) => self.phase is Running && i < self.tasks.len(),
            Step::Exclusive => {
                self.phase is Running && self.exclusive is Some && self.tasks.len() == 0
            },
            Step::Future(i) => self.accepts() && i < self.ctx.futures.len(),
            Step::Stream(i) => self.accepts() && i < self.ctx.streams.len(),
            Step::Recv | Step::HandleRef(_) | Step::HandleMut | Step::CloseOnOrder(_)
            | Step::CloseDrained => self.accepts(),
            Step::Hook => self.phase !is Running && self.hook is None,
            Step::PollHook => self.phase !is Running && self.hook is Some,
        }
    }

    /// New messages may come in: no exclusive task is pending.
    pub open spec fn accepts(self) -> bool {
        self.phase is Running && self.exclusive is None
    }

    /// Whether the event is one that can follow the action.
    pub open spec fn expects<M>(self, event: Event<M, T, N>) -> bool {
        match self.at {
            Step::Idle => false,
            Step::Task(_) | Step::Exclusive | Step::PollHook => event is Polled,
            Step::Future(_) | Step::Stream(_) => {
                &&& event matches Event::Message(poll)
                &&& !(poll matches Poll::Ready(Some(ActorMessage::State(_, _))))
            },
            Step::Recv => event is Message,
            Step::HandleRef(_) | Step::HandleMut | Step::Hook => event is Built,
            Step::CloseOnOrder(_) | Step::CloseDrained => event is Done,
        }
    }

    /// The context waits for something else.
    pub open spec fn wait(self, at: Step) -> ContextView<T, F, S, N> {
        ContextView { at, ..self }
    }

    /// The state of the actor changes.
    pub open spec fn with_actor(self, actor: ActorState) -> ContextView<T, F, S, N> {
        ContextView { ctx: ContextData { actor, ..self.ctx }, ..self }
    }

    /// The poll of the context is over.
    pub open spec fn done<M>(self, poll: Poll<()>) -> (ContextView<T, F, S, N>, Action<M>) {
        (self.wait(Step::Idle), Action::Return(poll))
    }

    /// A round: the concurrent tasks from place `i` on, then the exclusive one.
    pub open spec fn task_turn<M>(self, i: int) -> (ContextView<T, F, S, N>, Action<M>) {
        if i < self.tasks.len() {
            (self.wait(Step::Task(i as usize)), Action::PollTask(i as usize))
        } else if self.exclusive is None {
            self.message_turn()
        } else if self.tasks.len() == 0 {
            (self.wait(Step::Exclusive), Action::PollExclusive)
        } else {
            self.done(Poll::Pending)
        }
    }

    /// What comes in, once the tasks had their turn.
    pub open spec fn message_turn<M>(self) -> (ContextView<T, F, S, N>, Action<M>) {
        ContextView { extra_poll: false, ..self }.future_turn(0)
    }

    /// The delayed messages from place `i` on, then the streams. They have no turn any more as soon
    /// as the actor is stopped.
    pub open spec fn future_turn<M>(self, i: int) -> (ContextView<T, F, S, N>, Action<M>) {
        if self.ctx.actor is Running && i < self.ctx.futures.len() {
            (self.wait(Step::Future(i as usize)), Action::PollFuture(i as usize))
        } else {
            self.stream_turn(0)
        }
    }

    /// The streams from place `i` on, then the channel.
    pub open spec fn stream_turn<M>(self, i: int) -> (ContextView<T, F, S, N>, Action<M>) {
        if self.ctx.actor is Running && i < self.ctx.streams.len() {
            (self.wait(Step::Stream(i as usize)), Action::PollStream(i as usize))
        } else {
            self.recv_turn()
        }
    }

    /// The channel.
    pub open spec fn recv_turn<M>(self) -> (ContextView<T, F, S, N>, Action<M>) {
        (self.wait(Step::Recv), Action::PollRecv)
    }

    /// After a concurrent message the place that it came from has its turn again.
    pub open spec fn back_to<M>(self, origin: Origin) -> (ContextView<T, F, S, N>, Action<M>) {
        match origin {
            Origin::Future(i) => self.future_turn(i as int),
            Origin::Stream(i) => self.stream_turn(i as int),
            Origin::Recv => self.recv_turn(),
        }
    }

    /// The hook of the actor for the start, or for the end.
    pub open spec fn hook_turn<M>(self) -> (ContextView<T, F, S, N>, Action<M>) {
        if self.hook is Some {
            (self.wait(Step::PollHook), Action::PollHook)
        } else if self.phase is Starting {
            (self.wait(Step::Hook), Action::OnStart)
        } else {
            (self.wait(Step::Hook), Action::OnStop)
        }
    }

    /// The context is about to end.
    pub open spec fn closing<M>(self) -> (ContextView<T, F, S, N>, Action<M>) {
        ContextView { phase: ContextState::Stopping, ..self }.hook_turn()
    }

    /// A message for one of the handlers, or the order to stop.
    pub open spec fn message<M>(self, msg: ActorMessage<M, N>, origin: Origin) -> (
        ContextView<T, F, S, N>,
        Action<M>,
    ) {
        match msg {
            ActorMessage::Ref(m) => (self.wait(Step::HandleRef(origin)), Action::HandleRef(m)),
            ActorMessage::Mut(m) => (self.wait(Step::HandleMut), Action::HandleMut(m)),
            ActorMessage::State(state, notify) => (
                ContextView { notify: Some(notify), ..self }.wait(Step::CloseOnOrder(state)),
                Action::CloseRecv,
            ),
        }
    }

    /// The context after a poll of it began, and what is to be done first.
    pub open spec fn polled<M>(self) -> (ContextView<T, F, S, N>, Action<M>) {
        match self.phase {
            ContextState::Running => self.task_turn(0),
            _ => self.hook_turn(),
        }
    }

    /// The context after an event, and what is to be done next.
    pub open spec fn resumed<M>(self, event: Event<M, T, N>) -> (
        ContextView<T, F, S, N>,
        Action<M>,
    ) {
        match (self.at, event) {
            (Step::Task(i), Event::Polled(Poll::Ready(_))) => {
                ContextView {
                    tasks: crate::context_future::swap_removed(self.tasks, i as int),
                    ..self
                }.task_turn(i as int)
            },
            (Step::Task(i), _) => self.task_turn(i + 1),
            (Step::Exclusive, Event::Polled(Poll::Ready(_))) => {
                ContextView { exclusive: None, ..self }.message_turn()
            },
            (Step::Exclusive, _) => self.done(Poll::Pending),
            (Step::Future(i), Event::Message(Poll::Ready(msg))) => {
                let futures = crate::context_future::swap_removed(self.ctx.futures, i as int);
                let v = ContextView { ctx: ContextData { futures, ..self.ctx }, ..self };
                match msg {
                    Some(msg) => v.message(msg, Origin::Future(i)),
                    None => v.future_turn(i as int),
                }
            },
            (Step::Future(i), _) => self.future_turn(i + 1),
            (Step::Stream(i), Event::Message(Poll::Ready(Some(msg)))) => {
                self.message(msg, Origin::Stream(i))
            },
            (Step::Stream(i), Event::Message(Poll::Ready(None))) => {
                let streams = crate::context_future::swap_removed(self.ctx.streams, i as int);
                ContextView { ctx: ContextData { streams, ..self.ctx }, ..self }.stream_turn(
                    i as int,
                )
            },
            (Step::Stream(i), _) => self.stream_turn(i + 1),
            (Step::Recv, Event::Message(Poll::Ready(Some(msg)))) => {
                self.message(msg, Origin::Recv)
            },
            (Step::Recv, Event::Message(Poll::Ready(None))) => (
                self.wait(Step::CloseDrained),
                Action::CloseRecv,
            ),
            (Step::Recv, _) => {
                if self.extra_poll {
                    self.task_turn(0)
                } else {
                    self.done(Poll::Pending)
                }
            },
            (Step::HandleRef(origin), Event::Built(task)) => {
                ContextView { extra_poll: true, tasks: self.tasks.push(task), ..self }.back_to(
                    origin,
                )
            },
            (Step::HandleMut, Event::Built(task)) => {
                ContextView { exclusive: Some(task), ..self }.task_turn(0)
            },
            (Step::CloseOnOrder(state), _) => {
                let v = self.with_actor(ActorState::StopGraceful);
                if state is Stop {
                    v.closing()
                } else {
                    v.recv_turn()
                }
            },
            (Step::CloseDrained, _) => {
                let v = self.with_actor(ActorState::StopGraceful);
                if self.extra_poll {
                    v.task_turn(0)
                } else if self.tasks.len() > 0 || self.exclusive is Some {
                    v.done(Poll::Pending)
                } else {
                    v.closing()
                }
            },
            (Step::Hook, Event::Built(task)) => (
                ContextView { hook: Some(task), ..self }.wait(Step::PollHook),
                Action::PollHook,
            ),
            (Step::PollHook, Event::Polled(Poll::Ready(_))) => {
                let v = ContextView { hook: None, ..self };
                if self.phase is Starting {
                    ContextView { phase: ContextState::Running, ..v }.with_actor(
                        ActorState::Running,
                    ).task_turn(0)
                } else {
                    v.done(Poll::Ready(()))
                }
            },
            _ => self.done(Poll::Pending),
        }
    }

    /// The exclusive task is polled only when no concurrent task is left.
    pub proof fn law_exclusive_task_runs_alone<M>(self, event: Event<M, T, N>)
        requires
            self.wf(),
            self.expects(event),
            self.resumed(event).1 is PollExclusive,
        ensures
            self.resumed(event).0.tasks.len() == 0,
    {
    }

    /// While an exclusive task is pending nothing new comes in: no delayed message, no stream and
    /// not the channel is polled, and no message is handed to a handler.
    pub proof fn law_nothing_new_beside_an_exclusive_task<M>(self, event: Event<M, T, N>)
        requires
            self.wf(),
            self.expects(event),
        ensures
            ({
                let (post, action) = self.resumed(event);
                action is PollFuture || action is PollStream || action is PollRecv
                    || action is HandleRef || action is HandleMut ==> post.exclusive is None
            }),
    {
    }

    /// A context whose actor is not running does not turn to delayed messages and streams, not even
    /// in the round in which the actor was stopped.
    pub proof fn law_stopped_context_turns_to_the_channel<M>(self, event: Event<M, T, N>)
        requires
            self.wf(),
        ensures
            ({
                let (post, action) = self.polled::<M>();
                action is PollFuture || action is PollStream ==> post.ctx.actor is Running
            }),
            self.expects(event) ==> ({
                let (post, action) = self.resumed(event);
                action is PollFuture || action is PollStream ==> post.ctx.actor is Running
            }),
    {
    }

    /// A message from the channel goes to the handler that it is for.
    pub proof fn law_message_reaches_its_handler<M>(self, msg: M)
        requires
            self.wf(),
            self.at is Recv,
        ensures
            self.resumed(
                Event::<M, T, N>::Message(Poll::Ready(Some(ActorMessage::Ref(msg)))),
            ).1 == Action::HandleRef(msg),
            self.resumed(
                Event::<M, T, N>::Message(Poll::Ready(Some(ActorMessage::Mut(msg)))),
            ).1 == Action::HandleMut(msg),
    {
    }

    /// On the order to stop gracefully the channel is closed, and the messages in it are handled.
    /// Whoever gave the order is to be notified.
    pub proof fn law_graceful_stop_drains_the_channel<M>(self, notify: N)
        requires
            self.wf(),
            self.at is Recv,
        ensures
            ({
                let order = Event::<M, T, N>::Message(
                    Poll::Ready(Some(ActorMessage::State(ActorState::StopGraceful, notify))),
                );
                let (closed, first) = self.resumed(order);
                let (draining, second) = closed.resumed(Event::<M, T, N>::Done);
                &&& self.expects(order)
                &&& first is CloseRecv
                &&& second is PollRecv
                &&& draining.phase is Running
                &&& draining.ctx.actor is StopGraceful
                &&& draining.tasks == self.tasks
                &&& draining.notify == Some(notify)
            }),
    {
    }

    /// A concurrent task stays, and is the same, until a poll of it is ready: only that one leaves
    /// then, and the last one takes its place.
    pub proof fn law_task_runs_to_its_end<M>(self, event: Event<M, T, N>, i: int)
        requires
            self.wf(),
            0 <= i < self.tasks.len(),
        ensures
            self.polled::<M>().0.tasks == self.tasks,
            self.expects(event) ==> ({
                let post = self.resumed(event).0.tasks;
                match (self.at, event) {
                    (Step::Task(k), Event::Polled(Poll::Ready(_))) => {
                        &&& post.len() == self.tasks.len() - 1
                        &&& i != k && i < post.len() ==> post[i] == self.tasks[i]
                        &&& i != k && i == post.len() ==> post[k as int] == self.tasks[i]
                    },
                    _ => i < post.len() && post[i] == self.tasks[i],
                }
            }),
    {
    }

    /// The exclusive task stays, and is the same, until a poll of it is ready.
    pub proof fn law_exclusive_task_runs_to_its_end<M>(self, event: Event<M, T, N>)
        requires
            self.wf(),
            self.exclusive is Some,
        ensures
            self.polled::<M>().0.exclusive == self.exclusive,
            self.expects(event) ==> self.resumed(event).0.exclusive == self.exclusive
                || self.at is Exclusive && (event matches Event::Polled(Poll::Ready(_))),
    {
    }

    /// On the order to stop at once the channel is closed, and the next thing is the actor's
    /// `on_stop`. Whoever gave the order is to be notified.
    pub proof fn law_forced_stop<M>(self, notify: N)
        requires
            self.wf(),
            self.at is Recv,
        ensures
            ({
                let (closed, first) = self.resumed(
                    Event::<M, T, N>::Message(
                        Poll::Ready(Some(ActorMessage::State(ActorState::Stop, notify))),
                    ),
                );
                let (stopped, second) = closed.resumed(Event::<M, T, N>::Done);
                &&& first is CloseRecv
                &&& second is OnStop
                &&& stopped.phase is Stopping
                &&& stopped.notify == Some(notify)
            }),
    {
    }

    /// A context stops running for two reasons only: on the order to stop at once, or when the
    /// channel is closed and drained and no task is left.
    pub proof fn law_running_ends<M>(self, event: Event<M, T, N>)
        requires
            self.wf(),
            self.expects(event),
            self.phase is Running,
            self.resumed(event).0.phase !is Running,
        ensures
            self.at == Step::CloseOnOrder(ActorState::Stop) || {
                &&& self.at is CloseDrained
                &&& self.tasks.len() == 0
                &&& self.exclusive is None
                &&& !self.extra_poll
            },
    {
    }

    /// A delayed message leaves the context when a poll of it is ready, and a stream when it is
    /// over, and at no other time: these are the polls with which they let go of their join handles.
    pub proof fn law_finished_task_leaves<M>(self, event: Event<M, T, N>)
        requires
            self.wf(),
            self.expects(event),
        ensures
            self.resumed(event).0.ctx.futures == (match (self.at, event) {
                (Step::Future(i), Event::Message(Poll::Ready(_))) => crate::context_future::swap_removed(
                    self.ctx.futures,
                    i as int,
                ),
                _ => self.ctx.futures,
            }),
            self.resumed(event).0.ctx.streams == (match (self.at, event) {
                (Step::Stream(i), Event::Message(Poll::Ready(None))) => crate::context_future::swap_removed(
                    self.ctx.streams,
                    i as int,
                ),
                _ => self.ctx.streams,
            }),
    {
    }

    /// What a context waits for is the outcome of the action that it asked for, and it takes every
    /// outcome that the action can have: what comes of a poll of a stream or of a delayed message is
    /// no order to stop.
    pub proof fn law_outcome_of_the_action_is_expected<M>(
        self,
        event: Event<M, T, N>,
        task: T,
        poll: Poll<()>,
        message: Poll<Option<ActorMessage<M, N>>>,
    )
        requires
            self.wf(),
            self.at is Idle || self.expects(event),
        ensures
            ({
                let (post, action) = if self.at is Idle {
                    self.polled::<M>()
                } else {
                    self.resumed(event)
                };
                match action {
                    Action::OnStart | Action::OnStop | Action::HandleMut(_) | Action::HandleRef(_) => {
                        post.expects(Event::<M, T, N>::Built(task))
                    },
                    Action::PollExclusive | Action::PollTask(_) | Action::PollHook => post.expects(
                        Event::<M, T, N>::Polled(poll),
                    ),
                    Action::PollRecv => post.expects(Event::<M, T, N>::Message(message)),
                    Action::PollStream(_) | Action::PollFuture(_) => {
                        message matches Poll::Ready(Some(ActorMessage::State(_, _))) || post.expects(
                            Event::<M, T, N>::Message(message),
                        )
                    },
                    Action::CloseRecv => post.expects(Event::<M, T, N>::Done),
                    Action::Return(_) => post.at is Idle,
                }
            }),
    {
    }

    /// The outcome of an action is taken for what the action was about: the task, the stream or the
    /// delayed message at the place that was named, and the hook or handler that was called.
    pub proof fn law_outcome_is_taken_for_its_action<M>(self, event: Event<M, T, N>)
        requires
            self.wf(),
            self.at is Idle || self.expects(event),
        ensures
            ({
                let (post, action) = if self.at is Idle {
                    self.polled::<M>()
                } else {
                    self.resumed(event)
                };
                match action {
                    Action::OnStart => post.at is Hook && post.phase is Starting,
                    Action::OnStop => post.at is Hook && post.phase is Stopping,
                    Action::PollHook => post.at is PollHook && post.phase !is Running,
                    Action::HandleMut(_) => post.at is HandleMut,
                    Action::HandleRef(_) => post.at is HandleRef,
                    Action::PollExclusive => post.at is Exclusive,
                    Action::PollRecv => post.at is Recv,
                    Action::PollTask(i) => post.at == Step::Task(i),
                    Action::PollStream(i) => post.at == Step::Stream(i),
                    Action::PollFuture(i) => post.at == Step::Future(i),
                    Action::CloseRecv => post.at is CloseOnOrder || post.at is CloseDrained,
                    Action::Return(_) => post.at is Idle,
                }
            }),
    {
    }

    /// The tasks are those that were built for the concurrent handler, each at the end when it was
    /// new, until a poll of them is ready. The last one takes the place of one that is finished.
    pub proof fn law_tasks_are_those_that_were_built<M>(self, event: Event<M, T, N>, k: int)
        requires
            self.wf(),
        ensures
            self.polled::<M>().0.tasks == self.tasks,
            self.expects(event) ==> {
                let post = self.resumed(event).0.tasks;
                match (self.at, event) {
                    (Step::HandleRef(_), Event::Built(task)) => {
                        &&& post.len() == self.tasks.len() + 1
                        &&& post.last() == task
                        &&& 0 <= k < self.tasks.len() ==> post[k] == self.tasks[k]
                    },
                    (Step::Task(i), Event::Polled(Poll::Ready(_))) => {
                        &&& post.len() == self.tasks.len() - 1
                        &&& 0 <= k < post.len() ==> post[k] == (if k == i {
                            self.tasks.last()
                        } else {
                            self.tasks[k]
                        })
                    },
                    _ => post == self.tasks,
                }
            },
    {
    }

    /// The exclusive task is the one that was built for the exclusive handler, and the task of a hook
    /// the one that was built for the hook, until a poll of it is ready.
    pub proof fn law_exclusive_task_is_the_one_that_was_built<M>(self, event: Event<M, T, N>)
        requires
            self.wf(),
        ensures
            self.polled::<M>().0.exclusive == self.exclusive,
            self.polled::<M>().0.hook == self.hook,
            self.expects(event) ==> {
                let post = self.resumed(event).0;
                &&& post.exclusive == (match (self.at, event) {
                    (Step::HandleMut, Event::Built(task)) => Some(task),
                    (Step::Exclusive, Event::Polled(Poll::Ready(_))) => None,
                    _ => self.exclusive,
                })
                &&& post.hook == (match (self.at, event) {
                    (Step::Hook, Event::Built(task)) => Some(task),
                    (Step::PollHook, Event::Polled(Poll::Ready(_))) => None,
                    _ => self.hook,
                })
            },
    {
    }

    /// The state of the actor and the phase of the context change by the end of `on_start`, by an
    /// order to stop and by the end of the channel, and by nothing else that the context does.
    pub proof fn law_state_of_the_actor_is_kept<M>(self, event: Event<M, T, N>)
        requires
            self.wf(),
        ensures
            self.polled::<M>().0.ctx == self.ctx,
            self.polled::<M>().0.phase == self.phase,
            self.expects(event) ==> {
                let (post, action) = self.resumed(event);
                let started = self.at is PollHook && self.phase is Starting && (
                event matches Event::Polled(Poll::Ready(_)));
                &&& post.ctx.actor == (if started {
                    ActorState::Running
                } else if self.at is CloseOnOrder || self.at is CloseDrained {
                    ActorState::StopGraceful
                } else {
                    self.ctx.actor
                })
                &&& post.phase == (if started {
                    ContextState::Running
                } else if action is OnStop {
                    ContextState::Stopping
                } else {
                    self.phase
                })
            },
    {
    }

    /// A message goes to the handler that it is for, wherever it comes from: the channel, a stream
    /// or a delayed message. Afterwards the place that it came from has its turn again.
    pub proof fn law_every_message_reaches_its_handler<M>(self, m: M)
        requires
            self.wf(),
            self.at is Recv || self.at is Stream || self.at is Future,
        ensures
            ({
                let (post, action) = self.resumed(
                    Event::<M, T, N>::Message(Poll::Ready(Some(ActorMessage::Ref(m)))),
                );
                &&& action == Action::<M>::HandleRef(m)
                &&& match self.at {
                    Step::Future(i) => post.at == Step::HandleRef(Origin::Future(i)),
                    Step::Stream(i) => post.at == Step::HandleRef(Origin::Stream(i)),
                    _ => post.at == Step::HandleRef(Origin::Recv),
                }
            }),
            self.resumed(
                Event::<M, T, N>::Message(Poll::Ready(Some(ActorMessage::Mut(m)))),
            ).1 == Action::<M>::HandleMut(m),
    {
    }

    /// Handlers are called for messages that came, and for no others.
    pub proof fn law_only_messages_are_handled<M>(self, event: Event<M, T, N>)
        requires
            self.wf(),
        ensures
            self.polled::<M>().1 !is HandleRef,
            self.polled::<M>().1 !is HandleMut,
            self.expects(event) ==> {
                &&& self.resumed(event).1 matches Action::HandleRef(m) ==> event == Event::<
                    M,
                    T,
                    N,
                >::Message(Poll::Ready(Some(ActorMessage::Ref(m))))
                &&& self.resumed(event).1 matches Action::HandleMut(m) ==> event == Event::<
                    M,
                    T,
                    N,
                >::Message(Poll::Ready(Some(ActorMessage::Mut(m))))
            },
    {
    }

    /// In every round every concurrent task is polled, one after the other. Then the exclusive task
    /// has its turn, if it is alone; if it is not the poll is over. Without one, new messages have
    /// theirs.
    pub proof fn law_every_task_is_polled<M>(self, event: Event<M, T, N>)
        requires
            self.wf(),
            self.tasks.len() < usize::MAX,
            self.at is Idle && self.phase is Running || self.expects(event),
            self.at is Idle || self.at is Task || self.at is HandleMut || self.at is PollHook
                && self.phase is Starting && (event matches Event::Polled(Poll::Ready(_))),
        ensures
            ({
                let (post, action) = if self.at is Idle {
                    self.polled::<M>()
                } else {
                    self.resumed(event)
                };
                let next = match self.at {
                    Step::Task(i) => if event matches Event::Polled(Poll::Ready(_)) {
                        i as int
                    } else {
                        i + 1
                    },
                    _ => 0,
                };
                let running = post.ctx.actor is Running;
                if next < post.tasks.len() {
                    action == Action::<M>::PollTask(next as usize)
                } else if post.exclusive is Some {
                    if post.tasks.len() == 0 {
                        action is PollExclusive
                    } else {
                        action == Action::<M>::Return(Poll::Pending)
                    }
                } else {
                    &&& !post.extra_poll
                    &&& if running && self.ctx.futures.len() > 0 {
                        action == Action::<M>::PollFuture(0)
                    } else if running && self.ctx.streams.len() > 0 {
                        action == Action::<M>::PollStream(0)
                    } else {
                        action is PollRecv
                    }
                }
            }),
    {
    }

    /// While the exclusive task is pending the poll is over, and once it is finished new messages
    /// have their turn.
    pub proof fn law_exclusive_task_comes_before_new_messages<M>(self)
        requires
            self.wf(),
            self.at is Exclusive,
        ensures
            self.resumed(Event::<M, T, N>::Polled(Poll::Pending)).1 == Action::<M>::Return(
                Poll::Pending,
            ),
            ({
                let (post, action) = self.resumed(Event::<M, T, N>::Polled(Poll::Ready(())));
                let running = self.ctx.actor is Running;
                &&& !post.extra_poll
                &&& if running && self.ctx.futures.len() > 0 {
                    action == Action::<M>::PollFuture(0)
                } else if running && self.ctx.streams.len() > 0 {
                    action == Action::<M>::PollStream(0)
                } else {
                    action is PollRecv
                }
            }),
    {
    }

    /// In one round every delayed message has its turn, one after the other, then every stream, and
    /// then the channel. What takes the place of one that leaves has its turn too.
    pub proof fn law_everything_has_its_turn<M>(self, event: Event<M, T, N>)
        requires
            self.wf(),
            self.expects(event),
            self.ctx.futures.len() < usize::MAX,
            self.ctx.streams.len() < usize::MAX,
        ensures
            ({
                let (post, action) = self.resumed(event);
                let running = self.ctx.actor is Running;
                let futures = self.ctx.futures.len();
                let streams = self.ctx.streams.len();
                match (self.at, event) {
                    (Step::Future(i), Event::Message(Poll::Pending)) if running && i + 1 < futures => {
                        action == Action::<M>::PollFuture((i + 1) as usize)
                    },
                    (Step::Future(i), Event::Message(Poll::Ready(None))) if running && i + 1
                        < futures => action == Action::<M>::PollFuture(i),
                    (Step::Future(_), Event::Message(Poll::Pending))
                    | (Step::Future(_), Event::Message(Poll::Ready(None))) => {
                        if running && streams > 0 {
                            action == Action::<M>::PollStream(0)
                        } else {
                            action is PollRecv
                        }
                    },
                    (Step::Stream(i), Event::Message(Poll::Pending)) => {
                        if running && i + 1 < streams {
                            action == Action::<M>::PollStream((i + 1) as usize)
                        } else {
                            action is PollRecv
                        }
                    },
                    (Step::Stream(i), Event::Message(Poll::Ready(None))) => {
                        if running && i + 1 < streams {
                            action == Action::<M>::PollStream(i)
                        } else {
                            action is PollRecv
                        }
                    },
                    (Step::HandleRef(Origin::Future(i)), _) if running && i < futures => {
                        action == Action::<M>::PollFuture(i)
                    },
                    (Step::HandleRef(Origin::Future(_)), _) if running && streams > 0 => {
                        action == Action::<M>::PollStream(0)
                    },
                    (Step::HandleRef(Origin::Stream(i)), _) if running && i < streams => {
                        action == Action::<M>::PollStream(i)
                    },
                    (Step::HandleRef(_), _) => action is PollRecv,
                    _ => true,
                }
            }),
    {
    }

    /// The channel ends a round: with nothing to give it starts another one if one is wanted, and
    /// else the poll is over. When it is over it is closed, and the context ends as soon as no task
    /// is left.
    pub proof fn law_channel_ends_the_round<M>(self)
        requires
            self.wf(),
        ensures
            self.at is Recv ==> {
                let (post, action) = self.resumed(Event::<M, T, N>::Message(Poll::Pending));
                if !self.extra_poll {
                    action == Action::<M>::Return(Poll::Pending)
                } else if self.tasks.len() > 0 {
                    action == Action::<M>::PollTask(0)
                } else {
                    let running = self.ctx.actor is Running;
                    &&& !post.extra_poll
                    &&& if running && self.ctx.futures.len() > 0 {
                        action == Action::<M>::PollFuture(0)
                    } else if running && self.ctx.streams.len() > 0 {
                        action == Action::<M>::PollStream(0)
                    } else {
                        action is PollRecv
                    }
                }
            },
            self.at is Recv ==> {
                let (post, action) = self.resumed(Event::<M, T, N>::Message(Poll::Ready(None)));
                action is CloseRecv && post.at is CloseDrained
            },
            self.at is CloseDrained ==> {
                let (post, action) = self.resumed(Event::<M, T, N>::Done);
                if self.extra_poll {
                    if self.tasks.len() > 0 {
                        action == Action::<M>::PollTask(0)
                    } else {
                        action is PollRecv
                    }
                } else if self.tasks.len() > 0 {
                    action == Action::<M>::Return(Poll::Pending)
                } else {
                    action is OnStop
                }
            },
    {
    }

    /// An order is carried out as it was given: the channel is closed, and then the actor's `on_stop`
    /// is called at once, or the channel is drained.
    pub proof fn law_orders_are_carried_out<M>(self, state: ActorState, notify: N)
        requires
            self.wf(),
            self.at is Recv,
        ensures
            ({
                let (closed, first) = self.resumed(
                    Event::<M, T, N>::Message(
                        Poll::Ready(Some(ActorMessage::State(state, notify))),
                    ),
                );
                let (post, second) = closed.resumed(Event::<M, T, N>::Done);
                &&& first is CloseRecv
                &&& closed.notify == Some(notify)
                &&& closed.tasks == self.tasks
                &&& post.ctx.actor is StopGraceful
                &&& if state is Stop {
                    second is OnStop
                } else {
                    second is PollRecv
                }
            }),
    {
    }

    /// Another round is wanted for a new concurrent task, until the next round asks for new messages.
    pub proof fn law_another_round_is_wanted<M>(self, event: Event<M, T, N>)
        requires
            self.wf(),
            self.at is Idle || self.expects(event),
        ensures
            ({
                let (post, action) = if self.at is Idle {
                    self.polled::<M>()
                } else {
                    self.resumed(event)
                };
                match self.at {
                    Step::HandleRef(_) => post.extra_poll,
                    Step::Future(_) | Step::Stream(_) | Step::CloseOnOrder(_) => post.extra_poll
                        == self.extra_poll,
                    _ => post.extra_poll == self.extra_poll || !post.extra_poll && (action
                        is PollFuture || action is PollStream || action is PollRecv),
                }
            }),
    {
    }

    /// The first thing is the actor's `on_start`, and the last one its `on_stop`. The task of a hook
    /// is polled at once, and in every poll of the context until it is ready. The actor is running
    /// once `on_start` is finished, and the context is over once `on_stop` is.
    pub proof fn law_hooks_begin_and_end<M>(self, task: T)
        requires
            self.wf(),
        ensures
            self.at is Idle && self.phase !is Running ==> self.polled::<M>().1 == (if self.hook
                is Some {
                Action::<M>::PollHook
            } else if self.phase is Starting {
                Action::OnStart
            } else {
                Action::OnStop
            }),
            self.at is Hook ==> {
                let (post, action) = self.resumed(Event::<M, T, N>::Built(task));
                action is PollHook && post.phase == self.phase
            },
            self.at is PollHook ==> {
                let (rest, action) = self.resumed(Event::<M, T, N>::Polled(Poll::Pending));
                let (again, next) = rest.polled::<M>();
                &&& action == Action::<M>::Return(Poll::Pending)
                &&& next is PollHook
                &&& again == self
            },
            self.at is PollHook && self.phase is Starting ==> {
                let (post, action) = self.resumed(Event::<M, T, N>::Polled(Poll::Ready(())));
                post.ctx.actor is Running && post.phase is Running && action !is OnStart
            },
            self.at is PollHook && self.phase is Stopping ==> self.resumed(
                Event::<M, T, N>::Polled(Poll::Ready(())),
            ).1 == Action::<M>::Return(Poll::Ready(())),
    {
    }

    /// The place of a stream that is over, or of a delayed message that is due, is taken by the last
    /// one, and all others keep their places.
    pub proof fn law_others_keep_their_places<M>(self, event: Event<M, T, N>, k: int)
        requires
            self.wf(),
            self.expects(event),
        ensures
            ({
                let pre = self.ctx.streams;
                let post = self.resumed(event).0.ctx.streams;
                match (self.at, event) {
                    (Step::Stream(i), Event::Message(Poll::Ready(None))) => {
                        &&& post.len() == pre.len() - 1
                        &&& 0 <= k < post.len() ==> post[k] == (if k == i {
                            pre.last()
                        } else {
                            pre[k]
                        })
                    },
                    _ => post == pre,
                }
            }),
            ({
                let pre = self.ctx.futures;
                let post = self.resumed(event).0.ctx.futures;
                match (self.at, event) {
                    (Step::Future(i), Event::Message(Poll::Ready(_))) => {
                        &&& post.len() == pre.len() - 1
                        &&& 0 <= k < post.len() ==> post[k] == (if k == i {
                            pre.last()
                        } else {
                            pre[k]
                        })
                    },
                    _ => post == pre,
                }
            }),
    {
    }

    /// A context is finished only once the task of the actor's `on_stop` is.
    pub proof fn law_finished_after_on_stop<M>(self, event: Event<M, T, N>)
        requires
            self.wf(),
            self.expects(event),
            self.resumed(event).1 == Action::<M>::Return(Poll::Ready(())),
        ensures
            self.at is PollHook,
            self.phase is Stopping,
            event matches Event::Polled(Poll::Ready(_)),
    {
    }

    /// Whom to notify of the end changes only by an order to stop.
    pub proof fn law_notify_is_kept<M>(self, event: Event<M, T, N>)
        requires
            self.wf(),
        ensures
            self.polled::<M>().0.notify == self.notify,
            self.expects(event) ==> self.resumed(event).0.notify == self.notify || {
                &&& self.at is Recv
                &&& event matches Event::Message(
                    Poll::Ready(Some(ActorMessage::State(_, notify))),
                )
                &&& self.resumed(event).0.notify == Some(notify)
            },
    {
    }
}

/// The concurrent tasks.
pub struct CacheRef<T>(Vec<T>);

impl<T> View for CacheRef<T> {
    type V = Seq<T>;

    closed spec fn view(&self) -> Seq<T> {
        self.0@
    }
}

impl<T> CacheRef<T> {
    /// No tasks, with room for `capacity` of them.
    pub fn new(capacity: usize) -> (cache: CacheRef<T>)
        ensures
            cache@ == Seq::<T>::empty(),
    {
        CacheRef(Vec::with_capacity(capacity))
    }

    /// Adds a task.
    pub fn add_concurrent(&mut self, task: T)
        ensures
            final(self)@ == old(self)@.push(task),
    {
        self.0.push(task);
    }
}

/// The exclusive task.
pub struct CacheMut<T>(Option<T>);

impl<T> View for CacheMut<T> {
    type V = Option<T>;

    closed spec fn view(&self) -> Option<T> {
        self.0
    }
}

impl<T> CacheMut<T> {
    /// No task.
    pub fn new() -> (cache: CacheMut<T>)
        ensures
            cache@ == None::<T>,
    {
        CacheMut(None)
    }

    /// Drops the task.
    pub fn clear(&mut self)
        ensures
            final(self)@ == None::<T>,
    {
        self.0 = None;
    }

    /// Sets the task.
    pub fn add_exclusive(&mut self, task: T)
        ensures
            final(self)@ == Some(task),
    {
        self.0 = Some(task);
    }
}

/// The context of an actor: what it runs and how far it is.
pub struct ContextFuture<T, F, S, N> {
    ctx: Context<F, S>,
    cache_mut: CacheMut<T>,
    cache_ref: CacheRef<T>,
    drop_notify: Option<N>,
    state: ContextState,
    poll_task: Option<T>,
    extra_poll: bool,
    at: Step,
}

impl<T, F, S, N> View for ContextFuture<T, F, S, N> {
    type V = ContextView<T, F, S, N>;

    closed spec fn view(&self) -> ContextView<T, F, S, N> {
        ContextView {
            ctx: self.ctx@,
            exclusive: self.cache_mut@,
            tasks: self.cache_ref@,
            hook: self.poll_task,
            notify: self.drop_notify,
            phase: self.state,
            extra_poll: self.extra_poll,
            at: self.at,
        }
    }
}

impl<T, F, S, N> ContextFuture<T, F, S, N> {
    /// The context of an actor that has not started, with room for `size_hint` concurrent tasks.
    pub fn new(ctx: Context<F, S>, size_hint: usize) -> (fut: ContextFuture<T, F, S, N>)
        ensures
            fut@ == (ContextView {
                ctx: ctx@,
                exclusive: None::<T>,
                tasks: Seq::<T>::empty(),
                hook: None::<T>,
                notify: None::<N>,
                phase: ContextState::Starting,
                extra_poll: false,
                at: Step::Idle,
            }),
    {
        ContextFuture {
            ctx,
            cache_mut: CacheMut::new(),
            cache_ref: CacheRef::new(size_hint),
            drop_notify: None,
            state: ContextState::Starting,
            poll_task: None,
            extra_poll: false,
            at: Step::Idle,
        }
    }

    /// The concurrent task at place `i`, to poll it.
    pub fn task(&mut self, i: usize) -> (task: &mut T)
        requires
            i < old(self)@.tasks.len(),
        ensures
            *task == old(self)@.tasks[i as int],
            final(self)@ == (ContextView {
                tasks: old(self)@.tasks.update(i as int, *final(task)),
                ..old(self)@
            }),
    {
        &mut self.cache_ref.0[i]
    }

    /// The exclusive task, to poll it.
    pub fn exclusive(&mut self) -> (task: Option<&mut T>)
        ensures
            match task {
                Some(t) => {
                    &&& old(self)@.exclusive == Some(*t)
                    &&& final(self)@ == (ContextView { exclusive: Some(*final(t)), ..old(self)@ })
                },
                None => old(self)@.exclusive is None && final(self)@ == old(self)@,
            },
    {
        self.cache_mut.0.as_mut()
    }

    /// The task of a hook, to poll it.
    pub fn hook(&mut self) -> (task: Option<&mut T>)
        ensures
            match task {
                Some(t) => {
                    &&& old(self)@.hook == Some(*t)
                    &&& final(self)@ == (ContextView { hook: Some(*final(t)), ..old(self)@ })
                },
                None => old(self)@.hook is None && final(self)@ == old(self)@,
            },
    {
        self.poll_task.as_mut()
    }

    /// The part of the context that the actor can reach.
    pub fn ctx(&mut self) -> (ctx: &mut Context<F, S>)
        ensures
            ctx@ == old(self)@.ctx,
            final(self)@ == (ContextView { ctx: final(ctx)@, ..old(self)@ }),
    {
        &mut self.ctx
    }

    /// Gives up the context. Returns who is to be notified of it.
    pub fn drop(self) -> (notify: Option<N>)
        ensures
            notify == self@.notify,
    {
        self.drop_notify
    }

    fn done<M>(&mut self, poll: Poll<()>) -> (action: Action<M>)
        ensures
            (final(self)@, action) == old(self)@.done::<M>(poll),
    {
        self.at = Step::Idle;
        Action::Return(poll)
    }

    fn task_turn<M>(&mut self, i: usize) -> (action: Action<M>)
        ensures
            (final(self)@, action) == old(self)@.task_turn::<M>(i as int),
    {
        if i < self.cache_ref.0.len() {
            self.at = Step::Task(i);
            return Action::PollTask(i);
        }
        // try to poll exclusive message.
        if self.cache_mut.0.is_none() {
            self.message_turn()
        } else if self.cache_ref.0.len() == 0 {
            self.at = Step::Exclusive;
            Action::PollExclusive
        } else {
            // still have concurrent messages. finish them.
            self.done(Poll::Pending)
        }
    }

    fn message_turn<M>(&mut self) -> (action: Action<M>)
        ensures
            (final(self)@, action) == old(self)@.message_turn::<M>(),
    {
        // reset extra_poll
        self.extra_poll = false;
        self.future_turn(0)
    }

    fn future_turn<M>(&mut self, i: usize) -> (action: Action<M>)
        ensures
            (final(self)@, action) == old(self)@.future_turn::<M>(i as int),
    {
        // If context is stopped we stop dealing with future and stream messages.
        if self.ctx.state == ActorState::Running && i < self.ctx.future_cache.len() {
            self.at = Step::Future(i);
            Action::PollFuture(i)
        } else {
            self.stream_turn(0)
        }
    }

    fn stream_turn<M>(&mut self, i: usize) -> (action: Action<M>)
        ensures
            (final(self)@, action) == old(self)@.stream_turn::<M>(i as int),
    {
        if self.ctx.state == ActorState::Running && i < self.ctx.stream_cache.len() {
            self.at = Step::Stream(i);
            Action::PollStream(i)
        } else {
            self.recv_turn()
        }
    }

    fn recv_turn<M>(&mut self) -> (action: Action<M>)
        ensures
            (final(self)@, action) == old(self)@.recv_turn::<M>(),
    {
        self.at = Step::Recv;
        Action::PollRecv
    }

    fn back_to<M>(&mut self, origin: Origin) -> (action: Action<M>)
        ensures
            (final(self)@, action) == old(self)@.back_to::<M>(origin),
    {
        match origin {
            Origin::Future(i) => self.future_turn(i),
            Origin::Stream(i) => self.stream_turn(i),
            Origin::Recv => self.recv_turn(),
        }
    }

    fn hook_turn<M>(&mut self) -> (action: Action<M>)
        ensures
            (final(self)@, action) == old(self)@.hook_turn::<M>(),
    {
        if self.poll_task.is_some() {
            self.at = Step::PollHook;
            Action::PollHook
        } else {
            self.at = Step::Hook;
            if self.state == ContextState::Starting {
                Action::OnStart
            } else {
                Action::OnStop
            }
        }
    }

    fn closing<M>(&mut self) -> (action: Action<M>)
        ensures
            (final(self)@, action) == old(self)@.closing::<M>(),
    {
        self.state = ContextState::Stopping;
        self.hook_turn()
    }

    fn message<M>(&mut self, msg: ActorMessage<M, N>, origin: Origin) -> (action: Action<M>)
        ensures
            (final(self)@, action) == old(self)@.message(msg, origin),
    {
        match msg {
            // new concurrent message.
            ActorMessage::Ref(m) => {
                self.at = Step::HandleRef(origin);
                Action::HandleRef(m)
            },
            // new exclusive message. No new messages should be accepted until this one is
            // resolved.
            ActorMessage::Mut(m) => {
                self.at = Step::HandleMut;
                Action::HandleMut(m)
            },
            // stopping messages received.
            ActorMessage::State(state, notify) => {
                // a oneshot sender to to notify the caller shut down is complete.
                self.drop_notify = Some(notify);
                // stop context which would close the channel.
                self.at = Step::CloseOnOrder(state);
                Action::CloseRecv
            },
        }
    }

    /// Adds the task of a message to the concurrent handler.
    fn add_concurrent(&mut self, task: T)
        ensures
            final(self)@ == (ContextView {
                extra_poll: true,
                tasks: old(self)@.tasks.push(task),
                ..old(self)@
            }),
    {
        // when adding new concurrent message we always want an extra poll to register them.
        self.extra_poll = true;
        self.cache_ref.add_concurrent(task);
    }

    /// Sets the task of a message to the exclusive handler.
    fn add_exclusive(&mut self, task: T)
        ensures
            final(self)@ == (ContextView { exclusive: Some(task), ..old(self)@ }),
    {
        self.cache_mut.add_exclusive(task);
    }

    /// Whether a task is left.
    fn have_cache(&self) -> (have: bool)
        ensures
            have == (self@.tasks.len() > 0 || self@.exclusive is Some),
    {
        self.cache_ref.0.len() > 0 || self.cache_mut.0.is_some()
    }

    /// Begins a poll of the context. Returns what is to be done first.
    pub fn poll<M>(&mut self) -> (action: Action<M>)
        requires
            old(self)@.wf(),
            old(self)@.at is Idle,
        ensures
            final(self)@.wf(),
            (final(self)@, action) == old(self)@.polled::<M>(),
    {
        match self.state {
            ContextState::Running => self.task_turn(0),
            ContextState::Starting => self.hook_turn(),
            ContextState::Stopping => self.hook_turn(),
        }
    }

    /// Goes on after an event. Returns what is to be done next.
    pub fn resume<M>(&mut self, event: Event<M, T, N>) -> (action: Action<M>)
        requires
            old(self)@.wf(),
            old(self)@.expects(event),
        ensures
            final(self)@.wf(),
            (final(self)@, action) == old(self)@.resumed(event),
    {
        match self.state {
            ContextState::Running => self.poll_running(event),
            ContextState::Starting => self.poll_start(event),
            ContextState::Stopping => self.poll_close(event),
        }
    }

    /// Goes on with the hook of the actor for the start.
    fn poll_start<M>(&mut self, event: Event<M, T, N>) -> (action: Action<M>)
        requires
            old(self)@.wf(),
            old(self)@.expects(event),
            old(self)@.phase is Starting,
        ensures
            final(self)@.wf(),
            (final(self)@, action) == old(self)@.resumed(event),
    {
        match event {
            Event::Built(task) => {
                self.poll_task = Some(task);
                self.at = Step::PollHook;
                Action::PollHook
            },
            Event::Polled(Poll::Ready(())) => {
                self.poll_task = None;
                self.ctx.state = ActorState::Running;
                self.state = ContextState::Running;
                self.task_turn(0)
            },
            _ => self.done(Poll::Pending),
        }
    }

    /// Goes on with the hook of the actor for the end.
    fn poll_close<M>(&mut self, event: Event<M, T, N>) -> (action: Action<M>)
        requires
            old(self)@.wf(),
            old(self)@.expects(event),
            old(self)@.phase is Stopping,
        ensures
            final(self)@.wf(),
            (final(self)@, action) == old(self)@.resumed(event),
    {
        match event {
            Event::Built(task) => {
                self.poll_task = Some(task);
                self.at = Step::PollHook;
                Action::PollHook
            },
            Event::Polled(Poll::Ready(())) => {
                self.poll_task = None;
                self.done(Poll::Ready(()))
            },
            _ => self.done(Poll::Pending),
        }
    }

    /// Goes on with the tasks and messages of a running actor.
    fn poll_running<M>(&mut self, event: Event<M, T, N>) -> (action: Action<M>)
        requires
            old(self)@.wf(),
            old(self)@.expects(event),
            old(self)@.phase is Running,
        ensures
            final(self)@.wf(),
            (final(self)@, action) == old(self)@.resumed(event),
    {
        match self.at {
            // poll concurrent messages
            Step::Task(i) => {
                assert(self.cache_ref.0.len() == self@.tasks.len());
                match event {
                    Event::Polled(Poll::Ready(())) => {
                        let _ = self.cache_ref.0.swap_remove(i);
                        self.task_turn(i)
                    },
                    _ => self.task_turn(i + 1),
                }
            },
            // poll exclusive message and remove it when success.
            Step::Exclusive => match event {
                Event::Polled(Poll::Ready(())) => {
                    self.cache_mut.clear();
                    self.message_turn()
                },
                _ => self.done(Poll::Pending),
            },
            // poll future messages
            Step::Future(i) => {
                assert(self.ctx.future_cache.len() == self@.ctx.futures.len());
                match event {
                    Event::Message(Poll::Ready(msg)) => {
                        let _ = self.ctx.future_cache.swap_remove(i);
                        match msg {
                            Some(msg) => self.message(msg, Origin::Future(i)),
                            // Message is canceled by ContextJoinHandle. Ignore it.
                            None => self.future_turn(i),
                        }
                    },
                    _ => self.future_turn(i + 1),
                }
            },
            // poll stream message.
            Step::Stream(i) => {
                assert(self.ctx.stream_cache.len() == self@.ctx.streams.len());
                match event {
                    Event::Message(Poll::Ready(Some(msg))) => self.message(msg, Origin::Stream(i)),
                    // stream is either canceled by ContextJoinHandle or finished.
                    Event::Message(Poll::Ready(None)) => {
                        let _ = self.ctx.stream_cache.swap_remove(i);
                        self.stream_turn(i)
                    },
                    _ => self.stream_turn(i + 1),
                }
            },
            // actively drain receiver channel for incoming messages.
            Step::Recv => match event {
                Event::Message(Poll::Ready(Some(msg))) => self.message(msg, Origin::Recv),
                // channel is closed. stop context just in case.
                Event::Message(Poll::Ready(None)) => {
                    self.at = Step::CloseDrained;
                    Action::CloseRecv
                },
                _ => {
                    // have new concurrent message. poll another round.
                    if self.extra_poll {
                        self.task_turn(0)
                    } else {
                        self.done(Poll::Pending)
                    }
                },
            },
            Step::HandleRef(origin) => match event {
                Event::Built(task) => {
                    self.add_concurrent(task);
                    self.back_to(origin)
                },
                _ => self.done(Poll::Pending),
            },
            Step::HandleMut => match event {
                Event::Built(task) => {
                    self.add_exclusive(task);
                    self.task_turn(0)
                },
                _ => self.done(Poll::Pending),
            },
            Step::CloseOnOrder(state) => {
                self.ctx.state = ActorState::StopGraceful;
                // goes to stopping state if it's a force shut down.
                // otherwise keep the loop until we drain the channel.
                if state == ActorState::Stop {
                    self.closing()
                } else {
                    self.recv_turn()
                }
            },
            Step::CloseDrained => {
                self.ctx.state = ActorState::StopGraceful;
                if self.extra_poll {
                    // have new concurrent message. poll another round.
                    self.task_turn(0)
                } else if self.have_cache() {
                    // wait for unfinished messages to resolve.
                    self.done(Poll::Pending)
                } else {
                    // goes to stopping state.
                    self.closing()
                }
            },
            _ => self.done(Poll::Pending),
        }
    }
}

} // verus!
