//! Where messages to an actor are sent.

use vstd::prelude::*;

use crate::actor::ActorState;
use crate::error::ActixAsyncError;
use crate::message::{
    message_send_check, ActorMessage, FunctionMessage, FunctionMutMessage, Message,
    MessageContainer, Via,
};
use crate::request::MessageRequest;
use crate::runtime::RuntimeService;
use crate::util::channel::{Channel, Receiver, SendFuture, Sender, WeakSender};
use crate::util::oneshot::{oneshot, Oneshot, OneshotReceiver, OneshotSender};

verus! {

/// The message sink of an actor. Messages and closures are sent to the actor through it.
pub struct Addr(Sender);

/// The future that sends a message, or the order to stop.
pub type SendMessage<M> = SendFuture<ActorMessage<MessageContainer<M>, OneshotSender>>;

/// The request is a new one: not sent yet, with the default timeout for the send and none for the
/// answer.
pub open spec fn is_new_request<RT: RuntimeService, T>(
    request: MessageRequest<RT, SendFuture<T>>,
) -> bool {
    &&& request matches MessageRequest::Request { fut, timeout, timeout_response, .. }
    &&& fut.wf()
    &&& fut@.key is None
    &&& fut@.msg is Some
    &&& crate::runtime::lasts_secs::<RT>(timeout, crate::request::DEFAULT_TIMEOUT as nat)
    &&& timeout_response is None
}

/// What the request sends.
pub open spec fn requested<RT: RuntimeService, T>(request: MessageRequest<RT, SendFuture<T>>) -> T {
    request->fut@.msg->0
}

/// The container has a sender for the answer, which goes into this channel.
pub open spec fn answers_into<M>(container: MessageContainer<M>, id: int) -> bool {
    container.tx matches Some(tx) && tx.channel() == id
}

/// `message` carries `msg` to the handler `f`, with a sender for the answer, which goes into the
/// channel `id`.
pub open spec fn carries<M>(
    message: ActorMessage<MessageContainer<M>, OneshotSender>,
    msg: M,
    f: Via,
    id: int,
) -> bool {
    match (f, message) {
        (Via::Ref, ActorMessage::Ref(container)) => container.msg == Some(msg) && answers_into(
            container,
            id,
        ),
        (Via::Mut, ActorMessage::Mut(container)) => container.msg == Some(msg) && answers_into(
            container,
            id,
        ),
        _ => false,
    }
}

/// The request sends into the channel `actor`, and is answered through the channel `answer`.
pub open spec fn goes_between<RT: RuntimeService, T>(
    request: MessageRequest<RT, SendFuture<T>>,
    actor: int,
    answer: int,
) -> bool {
    &&& request matches MessageRequest::Request { fut, rx, .. }
    &&& fut.channel() == actor
    &&& rx.channel() == answer
}

impl Addr {
    /// The channel of the actor.
    pub closed spec fn channel(&self) -> int {
        self.0.channel()
    }

    /// The address of the actor behind a channel.
    pub fn new(tx: Sender) -> (addr: Addr)
        ensures
            addr.channel() == tx.channel(),
    {
        Addr(tx)
    }

    /// The address of the actor behind a channel, unless the channel is closed.
    pub fn from_recv<T, W>(rx: &Receiver, channel: &mut Channel<T, W>) -> (addr: Option<Addr>)
        requires
            old(channel).wf(),
            rx.channel() == old(channel)@.id,
            old(channel)@.queue.closed || old(channel)@.senders <= usize::MAX / 2,
        ensures
            final(channel).wf(),
            addr is Some <==> !old(channel)@.queue.closed,
            addr matches Some(a) ==> a.channel() == rx.channel(),
            final(channel)@ == (if addr is Some {
                crate::util::channel::ChannelView {
                    senders: old(channel)@.senders + 1,
                    ..old(channel)@
                }
            } else {
                old(channel)@
            }),
    {
        match rx.as_sender(channel) {
            Some(tx) => Some(Addr(tx)),
            None => None,
        }
    }

    /// One more address of the same actor.
    pub fn clone<T, W>(&self, channel: &mut Channel<T, W>) -> (addr: Addr)
        requires
            old(channel).wf(),
            self.channel() == old(channel)@.id,
            old(channel)@.senders <= usize::MAX / 2,
        ensures
            final(channel).wf(),
            addr.channel() == self.channel(),
            final(channel)@ == (crate::util::channel::ChannelView {
                senders: old(channel)@.senders + 1,
                ..old(channel)@
            }),
    {
        Addr(self.0.clone(channel))
    }

    /// Gives up the address. An actor without addresses gets no more messages.
    pub fn drop<T, W>(self, channel: &mut Channel<T, W>, woken: &mut Vec<W>)
        requires
            old(channel).wf(),
            self.channel() == old(channel)@.id,
            old(channel)@.senders > 0,
        ensures
            final(channel).wf(),
            final(channel)@ == old(channel)@.sender_dropped(),
            final(woken)@ == old(woken)@ + (if old(channel)@.senders == 1 {
                old(channel)@.close_wakers()
            } else {
                Seq::<W>::empty()
            }),
    {
        self.0.drop(channel, woken);
    }

    /// The request that sends `message` and is answered through `rx`.
    pub fn request<RT: RuntimeService, T>(&self, message: T, rx: OneshotReceiver) -> (request:
        MessageRequest<RT, SendFuture<T>>)
        ensures
            is_new_request(request),
            requested(request) == message,
            request->Request_rx == rx,
            goes_between(request, self.channel(), rx.channel()),
    {
        MessageRequest::new(self.0.send(message), rx)
    }

    /// send a concurrent message to actor. `Handler::handle` will be called for concurrent message
    /// processing.
    pub fn send<RT: RuntimeService, M: Message + Send, W>(&self, msg: M) -> (sent: (
        MessageRequest<RT, SendMessage<M>>,
        Oneshot<M::Result, W>,
    ))
        ensures
            sent.1@ == crate::util::oneshot::OneshotView::<M::Result, W>::fresh(sent.1@.id),
            is_new_request(sent.0),
            goes_between(sent.0, self.channel(), sent.1@.id),
            carries(requested(sent.0), msg, Via::Ref, sent.1@.id),
    {
        self.send_inner(msg, Via::Ref)
    }

    /// send an exclusive message to actor. `Handler::handle_wait` will be called for exclusive
    /// message processing.
    /// If `Handler::handle_wait` is not override then it would use `Handler::handle` as fallback.
    pub fn wait<RT: RuntimeService, M: Message + Send, W>(&self, msg: M) -> (sent: (
        MessageRequest<RT, SendMessage<M>>,
        Oneshot<M::Result, W>,
    ))
        ensures
            sent.1@ == crate::util::oneshot::OneshotView::<M::Result, W>::fresh(sent.1@.id),
            is_new_request(sent.0),
            goes_between(sent.0, self.channel(), sent.1@.id),
            carries(requested(sent.0), msg, Via::Mut, sent.1@.id),
    {
        self.send_inner(msg, Via::Mut)
    }

    fn send_inner<RT: RuntimeService, M: Message + Send, W>(&self, msg: M, f: Via) -> (sent: (
        MessageRequest<RT, SendMessage<M>>,
        Oneshot<M::Result, W>,
    ))
        ensures
            sent.1@ == crate::util::oneshot::OneshotView::<M::Result, W>::fresh(sent.1@.id),
            is_new_request(sent.0),
            goes_between(sent.0, self.channel(), sent.1@.id),
            carries(requested(sent.0), msg, f, sent.1@.id),
    {
        message_send_check::<M>();
        let (channel, tx, rx) = oneshot();
        let msg = MessageContainer::new(msg, Some(tx));
        (self.request(f.message(msg), rx), channel)
    }

    /// send a concurrent closure to actor. `Handler::handle` will be called for concurrent message
    /// processing.
    pub fn run<RT: RuntimeService, F: Send + 'static, R: Send + 'static, W>(&self, func: F) -> (sent: (
        MessageRequest<RT, SendMessage<FunctionMessage<F, R>>>,
        Oneshot<R, W>,
    ))
        ensures
            sent.1@ == crate::util::oneshot::OneshotView::<R, W>::fresh(sent.1@.id),
            is_new_request(sent.0),
            goes_between(sent.0, self.channel(), sent.1@.id),
            requested(sent.0) matches ActorMessage::Ref(container) && {
                &&& container.msg matches Some(msg)
                &&& msg.func == func
                &&& answers_into(container, sent.1@.id)
            },
    {
        self.send_inner(FunctionMessage::new(func), Via::Ref)
    }

    /// send a exclusive closure to actor. `Handler::handle_wait` will be called for exclusive
    /// message processing.
    /// If `Handler::handle_wait` is not override then it would use `Handler::handle` as fallback.
    pub fn run_wait<RT: RuntimeService, F: Send + 'static, R: Send + 'static, W>(
        &self,
        func: F,
    ) -> (sent: (MessageRequest<RT, SendMessage<FunctionMutMessage<F, R>>>, Oneshot<R, W>))
        ensures
            sent.1@ == crate::util::oneshot::OneshotView::<R, W>::fresh(sent.1@.id),
            is_new_request(sent.0),
            goes_between(sent.0, self.channel(), sent.1@.id),
            requested(sent.0) matches ActorMessage::Mut(container) && {
                &&& container.msg matches Some(msg)
                &&& msg.func == func
                &&& answers_into(container, sent.1@.id)
            },
    {
        self.send_inner(FunctionMutMessage::new(func), Via::Mut)
    }

    /// stop actor.
    /// When graceful is true the actor would shut it's channel and drain all remaining messages
    /// and exit. When false the actor would exit as soon as the stop message is handled.
    pub fn stop<RT: RuntimeService, M, W>(&self, graceful: bool) -> (sent: (
        MessageRequest<RT, SendFuture<ActorMessage<M, OneshotSender>>>,
        Oneshot<(), W>,
    ))
        ensures
            sent.1@ == crate::util::oneshot::OneshotView::<(), W>::fresh(sent.1@.id),
            is_new_request(sent.0),
            goes_between(sent.0, self.channel(), sent.1@.id),
            requested(sent.0) matches ActorMessage::State(state, notify) && {
                &&& state == (if graceful {
                    ActorState::StopGraceful
                } else {
                    ActorState::Stop
                })
                &&& notify.channel() == sent.1@.id
            },
    {
        let state = if graceful {
            ActorState::StopGraceful
        } else {
            ActorState::Stop
        };
        let (channel, tx, rx) = oneshot();
        (self.request(ActorMessage::State(state, tx), rx), channel)
    }

    /// weak version of Addr that can be upgraded.
    pub fn downgrade(&self) -> (weak: WeakAddr)
        ensures
            weak.channel() == self.channel(),
    {
        WeakAddr(self.0.downgrade())
    }

    /// The future that sends a message for which nobody waits.
    pub fn do_send_inner<M: Message + Send, N>(&self, msg: M, f: Via) -> (fut: SendFuture<
        ActorMessage<MessageContainer<M>, N>,
    >)
        ensures
            fut.wf(),
            fut.channel() == self.channel(),
            fut@.key is None,
            fut@.msg == Some(
                f.spec_message::<MessageContainer<M>, N>(
                    MessageContainer { msg: Some(msg), tx: None },
                ),
            ),
    {
        message_send_check::<M>();
        self.0.send(f.message(MessageContainer::new(msg, None)))
    }
}

/// A new request is not sent yet, waits ten seconds for its message to be accepted, and as long as it
/// takes for the answer. It holds the message that it sends.
pub proof fn law_new_request<RT: RuntimeService, T>(request: MessageRequest<RT, SendFuture<T>>)
    requires
        is_new_request(request),
    ensures
        request is Request,
        request->fut.wf(),
        request->fut@.key is None,
        request->fut@.msg == Some(requested(request)),
        crate::runtime::lasts_secs::<RT>(request->timeout, 10),
        request->Request_timeout_response is None,
{
}

/// What is sent through an address is the last message in the channel of the address, and in no
/// other: the channel that accepts it is the one that the address is of. Its answer comes from the
/// channel that the sender in the message goes into.
pub proof fn law_message_reaches_the_actor<RT: RuntimeService, M, W>(
    addr: Addr,
    request: MessageRequest<RT, SendMessage<M>>,
    msg: M,
    f: Via,
    answer: int,
    channel: crate::util::channel::ChannelView<
        ActorMessage<MessageContainer<M>, OneshotSender>,
        W,
    >,
)
    requires
        is_new_request(request),
        goes_between(request, addr.channel(), answer),
        carries(requested(request), msg, f, answer),
        channel.id == request->fut.channel(),
    ensures
        channel.id == addr.channel(),
        channel.send_done(requested(request)).id == addr.channel(),
        channel.send_done(requested(request)).queue.items == channel.queue.items.push(
            requested(request),
        ),
        request.receiver().channel() == answer,
        match requested(request) {
            ActorMessage::Ref(container) => f is Ref && container.msg == Some(msg)
                && container.tx->0.channel() == request.receiver().channel(),
            ActorMessage::Mut(container) => f is Mut && container.msg == Some(msg)
                && container.tx->0.channel() == request.receiver().channel(),
            ActorMessage::State(_, _) => false,
        },
{
}

/// weak version `Addr`. Can upgrade to `Addr` when at least one instance of `Addr` is still in
/// scope.
pub struct WeakAddr(WeakSender);

impl WeakAddr {
    /// The channel of the actor.
    pub closed spec fn channel(&self) -> int {
        self.0.channel()
    }

    /// One more weak address of the same actor.
    pub fn clone(&self) -> (weak: WeakAddr)
        ensures
            weak.channel() == self.channel(),
    {
        WeakAddr(self.0.clone())
    }

    /// An address, if there is one left.
    pub fn upgrade<T, W>(&self, channel: &mut Channel<T, W>) -> (addr: Option<Addr>)
        requires
            old(channel).wf(),
            self.channel() == old(channel)@.id,
            old(channel)@.senders < usize::MAX,
        ensures
            final(channel).wf(),
            addr is Some <==> old(channel)@.senders > 0,
            addr matches Some(a) ==> a.channel() == self.channel(),
            final(channel)@ == (if addr is Some {
                crate::util::channel::ChannelView {
                    senders: old(channel)@.senders + 1,
                    ..old(channel)@
                }
            } else {
                old(channel)@
            }),
    {
        proof {
            channel.law_no_task_waits_in_vain();
        }
        if channel.sender_count() == 0 {
            return None;
        }
        match self.0.upgrade(channel) {
            Some(tx) => Some(Addr(tx)),
            None => None,
        }
    }

    /// An address and the future that sends `msg` from it, if there is an address left, and the
    /// error `Closed` otherwise.
    pub fn _send<T, W>(&self, channel: &mut Channel<T, W>, msg: T) -> (result: Result<
        (Addr, SendFuture<T>),
        ActixAsyncError,
    >)
        requires
            old(channel).wf(),
            self.channel() == old(channel)@.id,
            old(channel)@.senders < usize::MAX,
        ensures
            final(channel).wf(),
            match result {
                Ok((addr, fut)) => {
                    &&& old(channel)@.senders > 0
                    &&& addr.channel() == self.channel()
                    &&& final(channel)@ == (crate::util::channel::ChannelView {
                        senders: old(channel)@.senders + 1,
                        ..old(channel)@
                    })
                    &&& fut.wf()
                    &&& fut.channel() == self.channel()
                    &&& fut@.key is None
                    &&& fut@.msg == Some(msg)
                },
                Err(err) => {
                    &&& old(channel)@.senders == 0
                    &&& final(channel)@ == old(channel)@
                    &&& err is Closed
                },
            },
    {
        proof {
            channel.law_no_task_waits_in_vain();
        }
        match self.upgrade(channel) {
            Some(addr) => {
                let fut = addr.0.send(msg);
                Ok((addr, fut))
            },
            None => Err(ActixAsyncError::Closed),
        }
    }
}

} // verus!
