//! A channel for a single value.

use vstd::prelude::*;

use crate::util::futures::Poll;

verus! {

/// The value that could not be sent, because nobody receives it.
#[derive(Debug, PartialEq, Eq)]
pub struct SendError<T>(pub T);

/// No value comes any more: the sender is gone.
#[derive(Clone, Copy, Debug, PartialEq, Eq, Structural)]
pub struct OneshotRecvError;

/// What the channel is: which one it is, which its ends know it by, the value that was sent and not
/// received, which of the two ends are left, and the waker of the task that waits for the value.
pub ghost struct OneshotView<T, W> {
    pub id: int,
    pub value: Option<T>,
    pub sender: bool,
    pub receiver: bool,
    pub waker: Option<W>,
}

impl<T, W> OneshotView<T, W> {
    /// A channel with both ends, and nothing sent.
    pub open spec fn fresh(id: int) -> OneshotView<T, W> {
        OneshotView { id, value: None, sender: true, receiver: true, waker: None }
    }

    /// The channel after `value` is sent.
    pub open spec fn sent(self, value: T) -> OneshotView<T, W> {
        if self.receiver {
            OneshotView { value: Some(value), sender: false, waker: None, ..self }
        } else {
            OneshotView { sender: false, ..self }
        }
    }

    /// The channel after its sender is gone, with nothing sent.
    pub open spec fn abandoned(self) -> OneshotView<T, W> {
        OneshotView { sender: false, waker: None, ..self }
    }

    /// The wakers that are called when the receiver has something to learn.
    pub open spec fn woken(self) -> Seq<W> {
        match self.waker {
            Some(w) => seq![w],
            None => Seq::empty(),
        }
    }

    /// What the receiver gets.
    pub open spec fn outcome(self) -> Poll<Result<T, OneshotRecvError>> {
        match self.value {
            Some(value) => Poll::Ready(Ok(value)),
            None if !self.sender => Poll::Ready(Err(OneshotRecvError)),
            None => Poll::Pending,
        }
    }

    /// The channel after the receiver asked for the value.
    pub open spec fn polled(self, waker: W) -> OneshotView<T, W> {
        match self.outcome() {
            Poll::Ready(_) => OneshotView { value: None, ..self },
            Poll::Pending => OneshotView { waker: Some(waker), ..self },
        }
    }

    /// The channel after its receiver is gone.
    pub open spec fn closed(self) -> OneshotView<T, W> {
        OneshotView { receiver: false, waker: None, ..self }
    }

    /// A value that is sent is what the receiver gets; a second poll gets nothing more.
    pub proof fn law_send_then_poll(self, value: T, first: W, second: W)
        requires
            self.sender,
            self.receiver,
        ensures
            self.sent(value).outcome() == Poll::Ready(Ok::<T, OneshotRecvError>(value)),
            self.sent(value).polled(first).outcome() == Poll::Ready(
                Err::<T, OneshotRecvError>(OneshotRecvError),
            ),
    {
    }

    /// What each call does to the channel, and that it does nothing else. A value that is sent is kept
    /// for a receiver that is there, and a waker that was registered is called then and not kept.
    pub proof fn law_each_call_does_what_it_says(self, id: int, value: T, waker: W)
        ensures
            self.receiver ==> self.sent(value) == (OneshotView {
                value: Some(value),
                sender: false,
                waker: None,
                ..self
            }),
            !self.receiver ==> self.sent(value) == (OneshotView { sender: false, ..self }),
            self.abandoned() == (OneshotView { sender: false, waker: None, ..self }),
            self.closed() == (OneshotView { receiver: false, waker: None, ..self }),
            self.waker == Some(waker) ==> self.woken() == seq![waker],
            self.waker is None ==> self.woken().len() == 0,
            self.outcome() is Pending ==> self.polled(waker) == (OneshotView {
                waker: Some(waker),
                ..self
            }),
            self.outcome() is Ready ==> self.polled(waker) == (OneshotView { value: None, ..self }),
            ({
                let fresh = OneshotView::<T, W>::fresh(id);
                &&& fresh.id == id
                &&& fresh.value is None
                &&& fresh.sender
                &&& fresh.receiver
                &&& fresh.waker is None
            }),
    {
    }

    /// The receiver gets the value if there is one, learns of the loss of the sender if there is
    /// none, and waits otherwise.
    pub proof fn law_outcome(self, value: T)
        ensures
            self.value == Some(value) ==> self.outcome() == Poll::Ready(
                Ok::<T, OneshotRecvError>(value),
            ),
            self.value is None && !self.sender ==> self.outcome() == Poll::Ready(
                Err::<T, OneshotRecvError>(OneshotRecvError),
            ),
            self.value is None && self.sender ==> self.outcome() is Pending,
    {
    }

    /// A receiver that waits is woken by a send and by the loss of the sender.
    pub proof fn law_waiting_receiver_is_woken(self, waker: W)
        requires
            self.sender,
            self.value is None,
        ensures
            self.outcome() is Pending,
            self.polled(waker).woken() == seq![waker],
    {
    }

    /// Without a value, the loss of the sender is what the receiver learns.
    pub proof fn law_abandoned_then_poll(self)
        requires
            self.value is None,
        ensures
            self.abandoned().outcome() == Poll::Ready(Err::<T, OneshotRecvError>(OneshotRecvError)),
    {
    }

    /// A receiver that is gone stays gone.
    pub proof fn law_closed_for_good(self, value: T, waker: W)
        ensures
            !self.closed().receiver,
            !self.receiver ==> {
                &&& !self.sent(value).receiver
                &&& !self.abandoned().receiver
                &&& !self.polled(waker).receiver
                &&& !self.closed().receiver
            },
    {
    }

    /// Nothing but the loss of the receiver counts as one.
    pub proof fn law_receiver_stays(self, value: T, waker: W)
        requires
            self.receiver,
        ensures
            self.sent(value).receiver,
            self.abandoned().receiver,
            self.polled(waker).receiver,
    {
    }

    /// After the receiver is gone no value goes into the channel.
    pub proof fn law_closed_refuses(self, value: T)
        ensures
            self.closed().sent(value).value == self.value,
    {
    }
}

/// The state that the two ends share.
pub struct Oneshot<T, W> {
    value: Option<T>,
    sender: bool,
    receiver: bool,
    waker: Option<W>,
    id: Ghost<int>,
}

/// An id for a channel, of which nothing is known.
proof fn some_id() -> int {
    arbitrary()
}

impl<T, W> View for Oneshot<T, W> {
    type V = OneshotView<T, W>;

    closed spec fn view(&self) -> OneshotView<T, W> {
        OneshotView {
            id: self.id@,
            value: self.value,
            sender: self.sender,
            receiver: self.receiver,
            waker: self.waker,
        }
    }
}

/// The end that sends the value.
pub struct OneshotSender {
    channel: Ghost<int>,
}

/// The end that receives the value.
pub struct OneshotReceiver {
    channel: Ghost<int>,
}

/// A channel and its two ends.
pub fn oneshot<T, W>() -> (ends: (Oneshot<T, W>, OneshotSender, OneshotReceiver))
    ensures
        ends.0@ == OneshotView::<T, W>::fresh(ends.0@.id),
        ends.1.channel() == ends.0@.id,
        ends.2.channel() == ends.0@.id,
{
    let id: Ghost<int> = Ghost(some_id());
    (
        Oneshot { value: None, sender: true, receiver: true, waker: None, id },
        OneshotSender { channel: id },
        OneshotReceiver { channel: id },
    )
}

impl OneshotSender {
    /// The channel that the value goes into.
    pub closed spec fn channel(&self) -> int {
        self.channel@
    }

    /// Whether the receiver is gone.
    pub fn is_closed<T, W>(&self, channel: &Oneshot<T, W>) -> (closed: bool)
        requires
            self.channel() == channel@.id,
        ensures
            closed == !channel@.receiver,
    {
        !channel.receiver
    }

    /// Sends the value, and hands it back if the receiver is gone. The waker of a receiver that
    /// waits goes to the end of `woken`.
    pub fn send<T, W>(self, channel: &mut Oneshot<T, W>, value: T, woken: &mut Vec<W>) -> (result:
        Result<(), SendError<T>>)
        requires
            self.channel() == old(channel)@.id,
            old(channel)@.sender,
        ensures
            final(channel)@ == old(channel)@.sent(value),
            result == (if old(channel)@.receiver {
                Ok::<(), SendError<T>>(())
            } else {
                Err(SendError(value))
            }),
            final(woken)@ == (if old(channel)@.receiver {
                old(woken)@ + old(channel)@.woken()
            } else {
                old(woken)@
            }),
    {
        channel.sender = false;
        if channel.receiver {
            channel.value = Some(value);
            wake(&mut channel.waker, woken);
            Ok(())
        } else {
            Err(SendError(value))
        }
    }

    /// Gives up the sender with nothing sent. The waker of a receiver that waits goes to the end
    /// of `woken`.
    pub fn drop<T, W>(self, channel: &mut Oneshot<T, W>, woken: &mut Vec<W>)
        requires
            self.channel() == old(channel)@.id,
            old(channel)@.sender,
        ensures
            final(channel)@ == old(channel)@.abandoned(),
            final(woken)@ == old(woken)@ + old(channel)@.woken(),
    {
        channel.sender = false;
        wake(&mut channel.waker, woken);
    }
}

/// Moves a registered waker to the end of `woken`.
fn wake<W>(waker: &mut Option<W>, woken: &mut Vec<W>)
    ensures
        *final(waker) == None::<W>,
        final(woken)@ == (match *old(waker) {
            Some(w) => old(woken)@ + seq![w],
            None => old(woken)@ + Seq::<W>::empty(),
        }),
{
    match waker.take() {
        Some(w) => {
            woken.push(w);
            assert(woken@ =~= old(woken)@ + seq![w]);
        },
        None => {
            assert(woken@ =~= old(woken)@ + Seq::<W>::empty());
        },
    }
}

impl OneshotReceiver {
    /// The channel that the value comes from.
    pub closed spec fn channel(&self) -> int {
        self.channel@
    }

    /// Asks for the value, for the task that `waker` wakes.
    pub fn poll<T, W>(&mut self, channel: &mut Oneshot<T, W>, waker: W) -> (poll: Poll<
        Result<T, OneshotRecvError>,
    >)
        requires
            old(self).channel() == old(channel)@.id,
        ensures
            final(self).channel() == old(self).channel(),
            poll == old(channel)@.outcome(),
            final(channel)@ == old(channel)@.polled(waker),
    {
        match channel.value.take() {
            Some(value) => Poll::Ready(Ok(value)),
            None => {
                if channel.sender {
                    channel.waker = Some(waker);
                    Poll::Pending
                } else {
                    Poll::Ready(Err(OneshotRecvError))
                }
            },
        }
    }

    /// Gives up the receiver.
    pub fn drop<T, W>(self, channel: &mut Oneshot<T, W>)
        requires
            self.channel() == old(channel)@.id,
        ensures
            final(channel)@ == old(channel)@.closed(),
    {
        channel.receiver = false;
        channel.waker = None;
    }
}

} // verus!
