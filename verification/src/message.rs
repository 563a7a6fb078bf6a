//! Messages to an actor.

use core::marker::PhantomData;
use core::time::Duration;
use std::sync::Arc;

use vstd::prelude::*;

use crate::actor::ActorState;
use crate::runtime::RuntimeService;
use crate::util::futures::Poll;
use crate::util::oneshot::{Oneshot, OneshotReceiver, OneshotSender};

verus! {

/// Something that an actor can be asked for.
pub trait Message: 'static {
    /// What the actor answers.
    type Result: Send + 'static;
}

impl<M: Message> Message for Arc<M> {
    type Result = M::Result;
}

impl<M: Message> Message for Box<M> {
    type Result = M::Result;
}

/// A closure for the concurrent handler.
pub struct FunctionMessage<F, R> {
    pub func: F,
    pub _res: PhantomData<R>,
}

impl<F: Clone, R> Clone for FunctionMessage<F, R> {
    fn clone(&self) -> (msg: Self)
        ensures
            cloned::<F>(self.func, msg.func),
    {
        FunctionMessage { func: self.func.clone(), _res: PhantomData }
    }
}

impl<F, R> FunctionMessage<F, R> {
    /// The message that asks for a call of `func`.
    pub fn new(func: F) -> (msg: Self)
        ensures
            msg.func == func,
    {
        FunctionMessage { func, _res: PhantomData }
    }
}

impl<F: 'static, R: Send + 'static> Message for FunctionMessage<F, R> {
    type Result = R;
}

/// A closure for the exclusive handler.
pub struct FunctionMutMessage<F, R> {
    pub func: F,
    pub _res: PhantomData<R>,
}

impl<F: Clone, R> Clone for FunctionMutMessage<F, R> {
    fn clone(&self) -> (msg: Self)
        ensures
            cloned::<F>(self.func, msg.func),
    {
        FunctionMutMessage { func: self.func.clone(), _res: PhantomData }
    }
}

impl<F, R> FunctionMutMessage<F, R> {
    /// The message that asks for a call of `func`.
    pub fn new(func: F) -> (msg: Self)
        ensures
            msg.func == func,
    {
        FunctionMutMessage { func, _res: PhantomData }
    }
}

impl<F: 'static, R: Send + 'static> Message for FunctionMutMessage<F, R> {
    type Result = R;
}

/// A message and the sender for the answer, if somebody waits for it.
pub struct MessageContainer<M> {
    pub msg: Option<M>,
    pub tx: Option<OneshotSender>,
}

impl<M> MessageContainer<M> {
    /// A message that was not handled yet.
    pub fn new(msg: M, tx: Option<OneshotSender>) -> (container: Self)
        ensures
            container == (MessageContainer { msg: Some(msg), tx }),
    {
        MessageContainer { msg: Some(msg), tx }
    }

    /// Takes the message out, for its handler, and the sender for the answer.
    pub fn take(&mut self) -> (parts: (M, Option<OneshotSender>))
        requires
            old(self).msg is Some,
        ensures
            parts == (old(self).msg->0, old(self).tx),
            *final(self) == (MessageContainer::<M> { msg: None, tx: None }),
    {
        let msg = match self.msg.take() {
            Some(msg) => msg,
            None => vstd::pervasive::unreached(),
        };
        (msg, self.tx.take())
    }
}

/// Compiles only for a message that can be sent to another thread.
pub fn message_send_check<M: Message + Send>() {
}

/// What goes through an actor's channel: a message for the concurrent handler, a message for the
/// exclusive handler, or the order to stop with somebody to notify once that is done.
#[derive(Debug, PartialEq, Eq)]
pub enum ActorMessage<M, N> {
    Ref(M),
    Mut(M),
    State(ActorState, N),
}

/// The handler that a message is for.
#[derive(Clone, Copy, Debug, PartialEq, Eq, Structural)]
pub enum Via {
    /// The concurrent one.
    Ref,
    /// The exclusive one.
    Mut,
}

impl Via {
    /// The message `msg` for this handler.
    pub open spec fn spec_message<M, N>(self, msg: M) -> ActorMessage<M, N> {
        match self {
            Via::Ref => ActorMessage::Ref(msg),
            Via::Mut => ActorMessage::Mut(msg),
        }
    }

    /// The message `msg` for this handler.
    pub fn message<M, N>(&self, msg: M) -> (message: ActorMessage<M, N>)
        ensures
            message == self.spec_message::<M, N>(msg),
    {
        match self {
            Via::Ref => ActorMessage::Ref(msg),
            Via::Mut => ActorMessage::Mut(msg),
        }
    }
}

/// A message to be sent again and again.
pub enum ActorMessageClone<C> {
    Ref(C),
    Mut(C),
}

impl<C: Clone> ActorMessageClone<C> {
    /// The message for the same handler that holds a clone, for which nobody waits.
    pub fn clone<N>(&self) -> (message: ActorMessage<MessageContainer<C>, N>)
        ensures
            match (*self, message) {
                (ActorMessageClone::Ref(obj), ActorMessage::Ref(container)) => {
                    &&& container.msg matches Some(msg)
                    &&& cloned::<C>(obj, msg)
                    &&& container.tx is None
                },
                (ActorMessageClone::Mut(obj), ActorMessage::Mut(container)) => {
                    &&& container.msg matches Some(msg)
                    &&& cloned::<C>(obj, msg)
                    &&& container.tx is None
                },
                _ => false,
            },
    {
        match self {
            ActorMessageClone::Ref(obj) => ActorMessage::Ref(
                MessageContainer::new(obj.clone(), None),
            ),
            ActorMessageClone::Mut(obj) => ActorMessage::Mut(
                MessageContainer::new(obj.clone(), None),
            ),
        }
    }
}

/// A task that its join handle can be asked about belongs to the channel of the handle.
pub open spec fn handled_by(handle: Option<OneshotReceiver>, id: int) -> bool {
    handle matches Some(rx) ==> rx.channel() == id
}

/// What the channel of a join handle becomes when the task lets go of it.
pub open spec fn released<W>(
    handle: Option<OneshotReceiver>,
    channel: crate::util::oneshot::OneshotView<(), W>,
) -> crate::util::oneshot::OneshotView<(), W> {
    match handle {
        Some(_) => channel.closed(),
        None => channel,
    }
}

/// The task is over, or dropped before that: its join handle finds it terminated.
pub fn release<W>(handle: &mut Option<OneshotReceiver>, channel: &mut Oneshot<(), W>)
    requires
        handled_by(*old(handle), old(channel)@.id),
    ensures
        *final(handle) is None,
        final(channel)@ == released(*old(handle), old(channel)@),
{
    match handle.take() {
        Some(rx) => rx.drop(channel),
        None => {},
    }
}

/// Asks whether the task behind a join handle was canceled, for the task that `waker` wakes. A
/// task whose handle was dropped is detached: it is not asked again.
pub fn poll_handle<W>(
    handle: &mut Option<OneshotReceiver>,
    channel: &mut Oneshot<(), W>,
    waker: W,
) -> (canceled: bool)
    requires
        handled_by(*old(handle), old(channel)@.id),
    ensures
        handled_by(*final(handle), final(channel)@.id),
        *old(handle) is None ==> !canceled && *final(handle) == *old(handle) && final(channel)@
            == old(channel)@,
        *old(handle) is Some ==> {
            &&& final(channel)@ == (if old(channel)@.outcome() matches Poll::Ready(Err(_)) {
                old(channel)@.polled(waker).closed()
            } else {
                old(channel)@.polled(waker)
            })
            &&& canceled == (old(channel)@.outcome() matches Poll::Ready(Ok(_)))
            &&& *final(handle) is None <==> (old(channel)@.outcome() matches Poll::Ready(Err(_)))
        },
{
    match handle.take() {
        Some(rx) => {
            let mut rx = rx;
            match rx.poll(channel, waker) {
                // handle canceled. resolve with nothing.
                Poll::Ready(Ok(())) => {
                    *handle = Some(rx);
                    true
                },
                // handle dropped. the task is now detached.
                Poll::Ready(Err(_)) => {
                    rx.drop(channel);
                    false
                },
                Poll::Pending => {
                    *handle = Some(rx);
                    false
                },
            }
        },
        None => false,
    }
}

/// A task that is canceled through its handle resolves with nothing.
pub proof fn law_canceled_task_resolves_with_nothing<W>(
    channel: crate::util::oneshot::OneshotView<(), W>,
)
    requires
        channel.sender,
        channel.receiver,
    ensures
        channel.sent(()).outcome() matches Poll::Ready(Ok(_)),
{
}

/// A task whose handle is dropped is detached, not canceled.
pub proof fn law_dropped_handle_detaches<W>(channel: crate::util::oneshot::OneshotView<(), W>)
    requires
        channel.value is None,
    ensures
        channel.abandoned().outcome() matches Poll::Ready(Err(_)),
{
}

/// A message for a handler is one for that handler, and holds what it was made of.
pub proof fn law_message_is_for_its_handler<M, N>(f: Via, msg: M)
    ensures
        f is Ref ==> f.spec_message::<M, N>(msg) == ActorMessage::<M, N>::Ref(msg),
        f is Mut ==> f.spec_message::<M, N>(msg) == ActorMessage::<M, N>::Mut(msg),
{
}

/// A task that lets go of its join handle loses its end of the channel, and nothing else happens to
/// the channel. One that is detached has no end to lose. The end that a task has is one of the
/// channel of its handle.
pub proof fn law_released_handle<W>(
    handle: Option<OneshotReceiver>,
    channel: crate::util::oneshot::OneshotView<(), W>,
)
    ensures
        handle is Some ==> released(handle, channel) == (crate::util::oneshot::OneshotView {
            receiver: false,
            waker: None,
            ..channel
        }),
        handle is None ==> released(handle, channel) == channel,
        handled_by(handle, channel.id) <==> (handle matches Some(rx) ==> rx.channel() == channel.id),
{
}

/// A message that is due after a delay.
pub struct FutureMessage<RT: RuntimeService, M, N> {
    pub delay: RT::Sleep,
    pub handle: Option<OneshotReceiver>,
    pub msg: Option<ActorMessage<M, N>>,
}

impl<RT: RuntimeService, M, N> FutureMessage<RT, M, N> {
    /// The message `msg`, due after `dur`, unless it is canceled through `rx`.
    pub fn new(dur: Duration, rx: OneshotReceiver, msg: ActorMessage<M, N>) -> (future: Self)
        ensures
            crate::runtime::lasts::<RT>(future.delay, dur),
            future.handle == Some(rx),
            future.msg == Some(msg),
    {
        FutureMessage { delay: RT::sleep(dur), handle: Some(rx), msg: Some(msg) }
    }

    /// What came of a poll: nothing if it was canceled, and the message once its time has come.
    /// `delay` is the outcome of a poll of the timer. Either way the task is over then, and its
    /// join handle finds it terminated.
    pub fn poll<W>(&mut self, channel: &mut Oneshot<(), W>, canceled: bool, delay: Poll<()>) -> (poll:
        Poll<Option<ActorMessage<M, N>>>)
        requires
            old(self).msg is Some,
            handled_by(old(self).handle, old(channel)@.id),
        ensures
            poll == (if canceled {
                Poll::Ready(None)
            } else if delay is Ready {
                Poll::Ready(old(self).msg)
            } else {
                Poll::Pending
            }),
            *final(self) == (if canceled {
                FutureMessage { handle: None, ..*old(self) }
            } else if delay is Ready {
                FutureMessage { handle: None, msg: None, ..*old(self) }
            } else {
                *old(self)
            }),
            final(channel)@ == (if poll is Ready {
                released(old(self).handle, old(channel)@)
            } else {
                old(channel)@
            }),
    {
        if canceled {
            release(&mut self.handle, channel);
            return Poll::Ready(None);
        }
        match delay {
            Poll::Ready(()) => {
                release(&mut self.handle, channel);
                Poll::Ready(self.msg.take())
            },
            Poll::Pending => Poll::Pending,
        }
    }

    /// The message is dropped with its context. Its join handle finds it terminated.
    pub fn release<W>(&mut self, channel: &mut Oneshot<(), W>)
        requires
            handled_by(old(self).handle, old(channel)@.id),
        ensures
            *final(self) == (FutureMessage { handle: None, ..*old(self) }),
            final(channel)@ == released(old(self).handle, old(channel)@),
    {
        release(&mut self.handle, channel);
    }
}

/// A message that is due again and again.
pub struct IntervalMessage<RT: RuntimeService, C> {
    pub dur: Duration,
    pub delay: RT::Sleep,
    pub handle: Option<OneshotReceiver>,
    pub msg: ActorMessageClone<C>,
}

impl<RT: RuntimeService, C: Clone> IntervalMessage<RT, C> {
    /// Clones of `msg`, due every `dur`, until it is canceled through `rx`.
    pub fn new(dur: Duration, rx: OneshotReceiver, msg: ActorMessageClone<C>) -> (interval: Self)
        ensures
            interval.dur == dur,
            crate::runtime::lasts::<RT>(interval.delay, dur),
            interval.handle == Some(rx),
            interval.msg == msg,
    {
        IntervalMessage { dur, delay: RT::sleep(dur), handle: Some(rx), msg }
    }

    /// What came of a poll: the end if it was canceled, and a clone of the message each time the
    /// timer, of which `delay` is the outcome of a poll, is up. The timer starts again then, and
    /// the task is woken to poll it. The join handle finds an interval that was canceled
    /// terminated, and one that goes on not.
    pub fn poll_next<N, W>(
        &mut self,
        channel: &mut Oneshot<(), W>,
        canceled: bool,
        delay: Poll<()>,
        waker: W,
        woken: &mut Vec<W>,
    ) -> (poll: Poll<Option<ActorMessage<MessageContainer<C>, N>>>)
        requires
            handled_by(old(self).handle, old(channel)@.id),
        ensures
            final(self).dur == old(self).dur,
            final(self).msg == old(self).msg,
            canceled ==> {
                &&& poll == Poll::Ready(None::<ActorMessage<MessageContainer<C>, N>>)
                &&& *final(self) == (IntervalMessage { handle: None, ..*old(self) })
                &&& final(channel)@ == released(old(self).handle, old(channel)@)
                &&& final(woken)@ == old(woken)@
            },
            !canceled ==> {
                &&& final(self).handle == old(self).handle
                &&& final(channel)@ == old(channel)@
            },
            !canceled && delay is Pending ==> {
                &&& poll is Pending
                &&& *final(self) == *old(self)
                &&& final(woken)@ == old(woken)@
            },
            !canceled && delay is Ready ==> {
                &&& poll matches Poll::Ready(Some(message))
                &&& message is Ref <==> old(self).msg is Ref
                &&& message is Mut <==> old(self).msg is Mut
                &&& match (old(self).msg, message) {
                    (ActorMessageClone::Ref(obj), ActorMessage::Ref(container)) => {
                        &&& container.msg matches Some(msg)
                        &&& cloned::<C>(obj, msg)
                        &&& container.tx is None
                    },
                    (ActorMessageClone::Mut(obj), ActorMessage::Mut(container)) => {
                        &&& container.msg matches Some(msg)
                        &&& cloned::<C>(obj, msg)
                        &&& container.tx is None
                    },
                    _ => false,
                }
                &&& crate::runtime::lasts::<RT>(final(self).delay, old(self).dur)
                &&& final(woken)@ == old(woken)@.push(waker)
            },
    {
        if canceled {
            release(&mut self.handle, channel);
            return Poll::Ready(None);
        }
        match delay {
            Poll::Ready(()) => {
                self.delay = RT::sleep(self.dur);
                // wake self one more time to register the new sleep.
                woken.push(waker);
                Poll::Ready(Some(self.msg.clone()))
            },
            Poll::Pending => Poll::Pending,
        }
    }
}

/// A source of messages: an interval, or any other stream.
pub enum StreamMessage<RT: RuntimeService, C, S> {
    Interval(IntervalMessage<RT, C>),
    Boxed(S),
}

impl<RT: RuntimeService, C, S> StreamMessage<RT, C, S> {
    /// An interval.
    pub fn new_interval(msg: IntervalMessage<RT, C>) -> (stream: Self)
        ensures
            stream == StreamMessage::<RT, C, S>::Interval(msg),
    {
        StreamMessage::Interval(msg)
    }

    /// A stream that is not an interval.
    pub fn new_boxed(stream: S) -> (message: Self)
        ensures
            message == StreamMessage::<RT, C, S>::Boxed(stream),
    {
        StreamMessage::Boxed(stream)
    }
}

/// A stream whose items are messages to one of the handlers.
pub struct StreamContainer<S> {
    pub stream: S,
    pub handle: Option<OneshotReceiver>,
    pub f: Via,
}

impl<S> StreamContainer<S> {
    /// The items of `stream` for the handler `f`, until it is canceled through `handle`.
    pub fn new(stream: S, handle: OneshotReceiver, f: Via) -> (container: Self)
        ensures
            container == (StreamContainer { stream, handle: Some(handle), f }),
    {
        StreamContainer { stream, handle: Some(handle), f }
    }

    /// What came of a poll: the end if it was canceled, and otherwise the outcome of a poll of the
    /// stream, an item of which becomes a message for which nobody waits. The join handle finds a
    /// stream that came to its end terminated, and one that goes on not.
    pub fn poll_next<M, N, W>(
        &mut self,
        channel: &mut Oneshot<(), W>,
        canceled: bool,
        item: Poll<Option<M>>,
    ) -> (poll: Poll<Option<ActorMessage<MessageContainer<M>, N>>>)
        requires
            handled_by(old(self).handle, old(channel)@.id),
        ensures
            poll == (if canceled {
                Poll::Ready(None)
            } else {
                match item {
                    Poll::Ready(Some(msg)) => Poll::Ready(
                        Some(
                            old(self).f.spec_message::<MessageContainer<M>, N>(
                                MessageContainer { msg: Some(msg), tx: None },
                            ),
                        ),
                    ),
                    Poll::Ready(None) => Poll::Ready(None),
                    Poll::Pending => Poll::Pending,
                }
            }),
            poll matches Poll::Ready(None) ==> {
                &&& *final(self) == (StreamContainer { handle: None, ..*old(self) })
                &&& final(channel)@ == released(old(self).handle, old(channel)@)
            },
            !(poll matches Poll::Ready(None)) ==> {
                &&& *final(self) == *old(self)
                &&& final(channel)@ == old(channel)@
            },
    {
        if canceled {
            release(&mut self.handle, channel);
            return Poll::Ready(None);
        }
        match item {
            Poll::Ready(Some(msg)) => Poll::Ready(
                Some(self.f.message(MessageContainer::new(msg, None))),
            ),
            Poll::Ready(None) => {
                release(&mut self.handle, channel);
                Poll::Ready(None)
            },
            Poll::Pending => Poll::Pending,
        }
    }
}

impl<RT: RuntimeService, C, S> StreamMessage<RT, C, StreamContainer<S>> {
    /// The end of a source is that of its interval or of its stream.
    pub proof fn law_handle_of_a_source(self)
        ensures
            self matches StreamMessage::Interval(interval) ==> self.handle() == interval.handle,
            self matches StreamMessage::Boxed(container) ==> self.handle() == container.handle,
    {
    }

    /// What the join handle of the source is asked through.
    pub open spec fn handle(self) -> Option<OneshotReceiver> {
        match self {
            StreamMessage::Interval(interval) => interval.handle,
            StreamMessage::Boxed(container) => container.handle,
        }
    }

    /// The source is dropped with its context. Its join handle finds it terminated.
    pub fn release<W>(&mut self, channel: &mut Oneshot<(), W>)
        requires
            handled_by(old(self).handle(), old(channel)@.id),
        ensures
            *final(self) == (match *old(self) {
                StreamMessage::Interval(interval) => StreamMessage::Interval(
                    IntervalMessage { handle: None, ..interval },
                ),
                StreamMessage::Boxed(container) => StreamMessage::Boxed(
                    StreamContainer { handle: None, ..container },
                ),
            }),
            final(channel)@ == released(old(self).handle(), old(channel)@),
    {
        match self {
            StreamMessage::Interval(interval) => release(&mut interval.handle, channel),
            StreamMessage::Boxed(container) => release(&mut container.handle, channel),
        }
    }
}

} // verus!
