//! When a message is handled, and who gets the answer.

use vstd::prelude::*;

use crate::error::ActixAsyncError;
use crate::request::{Action, Event, MessageRequest};
use crate::runtime::RuntimeService;
use crate::util::futures::Poll;
use crate::util::oneshot::{Oneshot, OneshotSender};

verus! {

/// What is left to do once a message is handled: to send the answer, if somebody waits for it.
pub struct Answer {
    pub tx: Option<OneshotSender>,
}

/// Decides whether a message is handled. One whose answer nobody receives any more is not: its
/// sender is dropped.
pub fn handle<T, W>(tx: Option<OneshotSender>, channel: &mut Oneshot<T, W>, woken: &mut Vec<W>) -> (answer:
    Option<Answer>)
    requires
        tx matches Some(tx) ==> tx.channel() == old(channel)@.id && old(channel)@.sender,
    ensures
        answer == (if tx is Some && !old(channel)@.receiver {
            None
        } else {
            Some(Answer { tx })
        }),
        final(channel)@ == (if tx is Some && !old(channel)@.receiver {
            old(channel)@.abandoned()
        } else {
            old(channel)@
        }),
        final(woken)@ == (if tx is Some && !old(channel)@.receiver {
            old(woken)@ + old(channel)@.woken()
        } else {
            old(woken)@
        }),
{
    match tx {
        Some(tx) => {
            if !tx.is_closed(channel) {
                Some(Answer { tx: Some(tx) })
            } else {
                tx.drop(channel, woken);
                None
            }
        },
        None => Some(Answer { tx: None }),
    }
}

/// The result of a handled message goes into the channel that the request for it receives from, and
/// is what the request returns.
pub proof fn law_answer_reaches_the_request<RT: RuntimeService, Fut, Res, W>(
    request: MessageRequest<RT, Fut>,
    tx: OneshotSender,
    channel: crate::util::oneshot::OneshotView<Res, W>,
    res: Res,
)
    requires
        request is Response,
        tx.channel() == request.receiver().channel(),
        channel.id == tx.channel(),
        channel.sender,
        channel.receiver,
    ensures
        channel.sent(res).id == request.receiver().channel(),
        request.next(Event::Received(channel.sent(res).outcome())) == Action::Return(
            Poll::Ready(Ok::<Res, ActixAsyncError>(res)),
        ),
{
}

/// A message that is dropped and not handled ends the request for it with `Receive`.
pub proof fn law_dropped_message_ends_the_request<RT: RuntimeService, Fut, Res, W>(
    request: MessageRequest<RT, Fut>,
    channel: crate::util::oneshot::OneshotView<Res, W>,
)
    requires
        request is Response,
        channel.value is None,
    ensures
        request.next(Event::Received(channel.abandoned().outcome())) == Action::Return(
            Poll::Ready(Err::<Res, ActixAsyncError>(ActixAsyncError::Receive)),
        ),
{
}

impl Answer {
    /// The message was handled with this result, which is sent to whoever waits for it.
    pub fn finish<T, W>(self, channel: &mut Oneshot<T, W>, res: T, woken: &mut Vec<W>)
        requires
            self.tx matches Some(tx) ==> tx.channel() == old(channel)@.id && old(channel)@.sender,
        ensures
            final(channel)@ == (if self.tx is Some {
                old(channel)@.sent(res)
            } else {
                old(channel)@
            }),
            final(woken)@ == (if self.tx is Some && old(channel)@.receiver {
                old(woken)@ + old(channel)@.woken()
            } else {
                old(woken)@
            }),
    {
        match self.tx {
            Some(tx) => {
                let _ = tx.send(channel, res, woken);
            },
            None => {},
        }
    }
}

} // verus!
