//! A bounded channel for many senders and many receivers.
//!
//! The state that the ends share is a `Channel`, and each operation of an end works on it. Tasks
//! are known by their wakers: an operation hands back those that are to be called.

use vstd::prelude::*;

use crate::error::ActixAsyncError;
use crate::util::bounded::{Bounded, TryRecvError, TrySendError};
use crate::util::event::{Event, EventListener};
use crate::util::futures::Poll;

verus! {

/// What a channel is: its queue, the tasks that wait to send, to receive and for the stream of
/// messages, and the number of ends.
pub ghost struct ChannelView<T, W> {
    /// Which channel it is: its ends, and the messages on their way to it, know it by this.
    pub id: int,
    pub queue: crate::util::bounded::BoundedView<T>,
    pub send_ops: crate::util::event::ListView<W>,
    pub recv_ops: crate::util::event::ListView<W>,
    pub stream_ops: crate::util::event::ListView<W>,
    pub senders: int,
    pub receivers: int,
}

impl<T, W> ChannelView<T, W> {
    /// No task waits in vain. One that waits for the stream and was not notified waits for a
    /// message or for the end. One that waits to send and was not notified waits for room, or for
    /// a task before it that was notified. A channel without senders or receivers is closed.
    pub open spec fn wf(self) -> bool {
        &&& self.queue.items.len() <= self.queue.cap
        &&& 0 < self.queue.cap
        &&& self.send_ops.wf()
        &&& self.recv_ops.wf()
        &&& self.stream_ops.wf()
        &&& self.recv_ops.keys.len() == 0
        &&& self.stream_ops.notified < self.stream_ops.keys.len() ==> self.queue.items.len() == 0
            && !self.queue.closed
        &&& self.send_ops.notified < self.send_ops.keys.len() ==> !self.queue.closed && (
        self.is_full() || self.send_ops.notified >= 1)
        &&& 0 <= self.senders <= usize::MAX
        &&& 0 <= self.receivers <= usize::MAX
        &&& self.senders == 0 || self.receivers == 0 ==> self.queue.closed
    }

    /// There is no room for another message.
    pub open spec fn is_full(self) -> bool {
        self.queue.items.len() == self.queue.cap
    }

    /// The channel after `msg` is put into it.
    pub open spec fn sent(self, msg: T) -> ChannelView<T, W> {
        ChannelView {
            queue: crate::util::bounded::BoundedView {
                items: self.queue.items.push(msg),
                ..self.queue
            },
            recv_ops: self.recv_ops.notify(1),
            stream_ops: self.stream_ops.notify(usize::MAX as int),
            ..self
        }
    }

    /// The wakers that are called when a message is put into the channel.
    pub open spec fn sent_wakers(self) -> Seq<W> {
        self.recv_ops.notify_wakers(1) + self.stream_ops.notify_wakers(usize::MAX as int)
    }

    /// The channel after a task put `msg` into it: if there may be room for more, the next task
    /// that waits to send is notified.
    pub open spec fn send_done(self, msg: T) -> ChannelView<T, W> {
        if self.queue.cap == 1 {
            self.sent(msg)
        } else {
            ChannelView { send_ops: self.send_ops.notify(1), ..self.sent(msg) }
        }
    }

    /// The wakers that are called when a task put a message into the channel.
    pub open spec fn send_done_wakers(self) -> Seq<W> {
        if self.queue.cap == 1 {
            self.sent_wakers()
        } else {
            self.sent_wakers() + self.send_ops.notify_wakers(1)
        }
    }

    /// The channel after a message is taken out of it.
    pub open spec fn received(self) -> ChannelView<T, W> {
        ChannelView {
            queue: crate::util::bounded::BoundedView {
                items: self.queue.items.drop_first(),
                ..self.queue
            },
            send_ops: self.send_ops.notify(1),
            ..self
        }
    }

    /// The wakers that are called when a message is taken out of the channel.
    pub open spec fn received_wakers(self) -> Seq<W> {
        self.send_ops.notify_wakers(1)
    }

    /// The channel after it is closed.
    pub open spec fn close(self) -> ChannelView<T, W> {
        if self.queue.closed {
            self
        } else {
            ChannelView {
                queue: crate::util::bounded::BoundedView { closed: true, ..self.queue },
                send_ops: self.send_ops.notify(usize::MAX as int),
                recv_ops: self.recv_ops.notify(usize::MAX as int),
                stream_ops: self.stream_ops.notify(usize::MAX as int),
                ..self
            }
        }
    }

    /// The wakers that are called when the channel is closed.
    pub open spec fn close_wakers(self) -> Seq<W> {
        if self.queue.closed {
            Seq::empty()
        } else {
            self.send_ops.notify_wakers(usize::MAX as int) + self.recv_ops.notify_wakers(
                usize::MAX as int,
            ) + self.stream_ops.notify_wakers(usize::MAX as int)
        }
    }

    /// The channel after a sender is gone.
    pub open spec fn sender_dropped(self) -> ChannelView<T, W> {
        let rest = ChannelView { senders: self.senders - 1, ..self };
        if self.senders == 1 {
            rest.close()
        } else {
            rest
        }
    }

    /// The channel after a receiver is gone.
    pub open spec fn receiver_dropped(self) -> ChannelView<T, W> {
        let rest = ChannelView { receivers: self.receivers - 1, ..self };
        if self.receivers == 1 {
            rest.close()
        } else {
            rest
        }
    }

    /// The channel after `msgs` are put into it, one after the other.
    pub open spec fn sent_all(self, msgs: Seq<T>) -> ChannelView<T, W>
        decreases msgs.len(),
    {
        if msgs.len() == 0 {
            self
        } else {
            self.sent_all(msgs.drop_last()).sent(msgs.last())
        }
    }

    /// The channel after `n` messages are taken out of it, one after the other.
    pub open spec fn received_all(self, n: nat) -> ChannelView<T, W>
        decreases n,
    {
        if n == 0 {
            self
        } else {
            self.received_all((n - 1) as nat).received()
        }
    }

    /// Messages wait in the order in which they were put into the channel.
    pub proof fn law_sent_in_order(self, msgs: Seq<T>)
        ensures
            self.sent_all(msgs).queue.items == self.queue.items + msgs,
        decreases msgs.len(),
    {
        if msgs.len() == 0 {
            assert(self.queue.items + msgs =~= self.queue.items);
        } else {
            self.law_sent_in_order(msgs.drop_last());
            assert((self.queue.items + msgs.drop_last()).push(msgs.last()) =~= self.queue.items
                + msgs);
        }
    }

    /// Messages are taken out in the order in which they wait.
    pub proof fn law_received_in_order(self, n: nat)
        requires
            n <= self.queue.items.len(),
        ensures
            self.received_all(n).queue.items == self.queue.items.skip(n as int),
        decreases n,
    {
        if n > 0 {
            self.law_received_in_order((n - 1) as nat);
            assert(self.queue.items.skip(n - 1).drop_first() =~= self.queue.items.skip(n as int));
        }
    }

    /// First in, first out: once the messages that waited before are taken out, those that were
    /// sent come out in the order in which they were sent.
    pub proof fn law_first_in_first_out(self, msgs: Seq<T>, k: int)
        requires
            0 <= k < msgs.len(),
        ensures
            self.sent_all(msgs).received_all((self.queue.items.len() + k) as nat).queue.items[0]
                == msgs[k],
    {
        self.law_sent_in_order(msgs);
        let n = (self.queue.items.len() + k) as nat;
        self.sent_all(msgs).law_received_in_order(n);
        assert((self.queue.items + msgs).skip(n as int)[0] == msgs[k]);
    }

    /// When a channel is closed no task is left waiting, and the messages in it stay there.
    pub proof fn law_close_wakes_every_task(self)
        requires
            self.wf(),
        ensures
            self.close().queue.closed,
            self.close().queue.items == self.queue.items,
            self.close().send_ops.notified == self.send_ops.keys.len(),
            self.close().stream_ops.notified == self.stream_ops.keys.len(),
            self.close().wf(),
    {
        self.send_ops.lemma_notify_all();
        self.recv_ops.lemma_notify_all();
        self.stream_ops.lemma_notify_all();
    }

    /// A list of tasks that wait replaces the one of a channel, and nothing else changes.
    pub proof fn law_lists_are_replaced_alone(
        self,
        ops: crate::util::event::ListView<W>,
    )
        ensures
            self.with_send_ops(ops) == (ChannelView { send_ops: ops, ..self }),
            self.with_stream_ops(ops) == (ChannelView { stream_ops: ops, ..self }),
    {
    }

    /// An end that is gone is not counted any more. The last sender, or the last receiver, closes
    /// the channel, with all that comes of that; any other one changes nothing else.
    pub proof fn law_ends_are_counted(self)
        ensures
            self.sender_dropped().senders == self.senders - 1,
            self.sender_dropped().receivers == self.receivers,
            self.receiver_dropped().receivers == self.receivers - 1,
            self.receiver_dropped().senders == self.senders,
            self.senders == 1 ==> self.sender_dropped() == (ChannelView {
                senders: 0,
                ..self.close()
            }),
            self.senders != 1 ==> self.sender_dropped() == (ChannelView {
                senders: self.senders - 1,
                ..self
            }),
            self.receivers == 1 ==> self.receiver_dropped() == (ChannelView {
                receivers: 0,
                ..self.close()
            }),
            self.receivers != 1 ==> self.receiver_dropped() == (ChannelView {
                receivers: self.receivers - 1,
                ..self
            }),
    {
    }

    /// A message that is sent is the last one in the channel, and those before it stay. The channel
    /// is the same one, with the same ends and the same room, and it is not closed by that.
    pub proof fn law_sent_message_is_the_last_one(self, msg: T)
        requires
            self.wf(),
        ensures
            self.sent(msg).queue.items == self.queue.items.push(msg),
            self.sent(msg).queue.closed == self.queue.closed,
            self.sent(msg).queue.cap == self.queue.cap,
            self.sent(msg) == (ChannelView {
                queue: self.sent(msg).queue,
                recv_ops: self.sent(msg).recv_ops,
                stream_ops: self.sent(msg).stream_ops,
                ..self
            }),
            self.send_done(msg) == (ChannelView {
                send_ops: self.send_done(msg).send_ops,
                ..self.sent(msg)
            }),
    {
    }

    /// There is no room exactly when the queue holds as many messages as it may.
    pub proof fn law_full_at_the_limit(self)
        ensures
            self.is_full() <==> self.queue.items.len() == self.queue.cap,
    {
    }

    /// Every task that waits for the stream is woken when a message is sent: whoever put the message
    /// into the channel gets the waker of each that was not notified before, in order. After a send
    /// that waited for its turn, a task that waits to send is told to go on, unless there is room for
    /// one message only, and nobody else is woken.
    pub proof fn law_sent_message_wakes(self, msg: T, i: int, w: W)
        requires
            self.wf(),
        ensures
            self.sent(msg).stream_ops.keys == self.stream_ops.keys,
            self.sent(msg).stream_ops.notified == self.stream_ops.keys.len(),
            self.sent_wakers() == crate::util::event::wakers(
                self.stream_ops.states,
                self.stream_ops.notified,
                self.stream_ops.keys.len() as int,
            ),
            self.stream_ops.notified <= i < self.stream_ops.keys.len()
                && self.stream_ops.states[i] == crate::util::event::State::Polling(w) ==> {
                &&& self.sent_wakers().contains(w)
                &&& self.send_done_wakers().contains(w)
            },
            ({
                let next = self.send_ops.notified;
                let goes_on = self.queue.cap != 1 && next == 0 && self.send_ops.keys.len() > 0;
                &&& self.send_done(msg).send_ops.keys == self.send_ops.keys
                &&& self.send_done(msg).send_ops.notified == (if goes_on {
                    1
                } else {
                    next
                })
                &&& self.send_done_wakers() == self.sent_wakers() + (if goes_on {
                    match self.send_ops.states[0] {
                        crate::util::event::State::Polling(w) => seq![w],
                        _ => Seq::empty(),
                    }
                } else {
                    Seq::empty()
                })
            }),
    {
        let stream = self.stream_ops;
        stream.lemma_notify_all();
        crate::util::event::law_wakers_are_of_polled_listeners(
            stream.states,
            stream.notified,
            stream.keys.len() as int,
        );
        assert(self.sent_wakers() =~= crate::util::event::wakers(
            stream.states,
            stream.notified,
            stream.keys.len() as int,
        ));
        self.send_ops.lemma_notify(1);
        crate::util::event::law_waker_of_one_listener(self.send_ops.states, 0);
        crate::util::event::law_waker_of_one_listener(
            self.send_ops.states,
            self.send_ops.notified,
        );
        assert(self.sent_wakers() + Seq::<W>::empty() =~= self.sent_wakers());
        if self.stream_ops.notified <= i < self.stream_ops.keys.len() && self.stream_ops.states[i]
            == crate::util::event::State::Polling(w) {
            let all = crate::util::event::wakers(
                stream.states,
                stream.notified,
                stream.keys.len() as int,
            );
            assert(stream.states[i] == crate::util::event::State::Polling(w));
            assert(all.contains(w));
            let k = self.sent_wakers().index_of(w);
            assert(self.sent_wakers()[k] == w);
            assert(self.send_done_wakers()[k] == w);
        }
    }

    /// The first message comes out, and the others stay in order. A task that waits to send is told
    /// to go on, if none was told before, and nobody else is woken.
    pub proof fn law_received_message_makes_room(self)
        requires
            self.wf(),
            self.queue.items.len() > 0,
        ensures
            ({
                let post = self.received();
                let goes_on = self.send_ops.notified == 0 && self.send_ops.keys.len() > 0;
                &&& post.queue.items.len() == self.queue.items.len() - 1
                &&& forall|i: int|
                    0 <= i < post.queue.items.len() ==> #[trigger] post.queue.items[i]
                        == self.queue.items[i + 1]
                &&& post.queue.closed == self.queue.closed
                &&& post.queue.cap == self.queue.cap
                &&& post == (ChannelView { queue: post.queue, send_ops: post.send_ops, ..self })
                &&& post.send_ops.keys == self.send_ops.keys
                &&& post.send_ops.notified == (if goes_on {
                    1
                } else {
                    self.send_ops.notified
                })
                &&& self.received_wakers() == (if goes_on {
                    match self.send_ops.states[0] {
                        crate::util::event::State::Polling(w) => seq![w],
                        _ => Seq::empty(),
                    }
                } else {
                    Seq::empty()
                })
            }),
    {
        self.send_ops.lemma_notify(1);
        crate::util::event::law_waker_of_one_listener(self.send_ops.states, 0);
        crate::util::event::law_waker_of_one_listener(
            self.send_ops.states,
            self.send_ops.notified,
        );
    }

    /// The close of an open channel wakes every task that waits, to send or for the stream, and was
    /// not notified before. It changes nothing but that the channel is closed and they are notified.
    pub proof fn law_close_wakes(self)
        requires
            self.wf(),
        ensures
            self.close().queue.closed,
            self.close() == (ChannelView {
                queue: self.close().queue,
                send_ops: self.close().send_ops,
                recv_ops: self.close().recv_ops,
                stream_ops: self.close().stream_ops,
                ..self
            }),
            self.close().queue.items == self.queue.items,
            self.close().queue.cap == self.queue.cap,
            self.close().send_ops.keys == self.send_ops.keys,
            self.close().stream_ops.keys == self.stream_ops.keys,
            self.close().send_ops.notified == self.send_ops.keys.len(),
            self.close().stream_ops.notified == self.stream_ops.keys.len(),
            self.queue.closed ==> self.close_wakers().len() == 0,
            !self.queue.closed ==> self.close_wakers() == crate::util::event::wakers(
                self.send_ops.states,
                self.send_ops.notified,
                self.send_ops.keys.len() as int,
            ) + crate::util::event::wakers(
                self.stream_ops.states,
                self.stream_ops.notified,
                self.stream_ops.keys.len() as int,
            ),
    {
        self.send_ops.lemma_notify_all();
        self.stream_ops.lemma_notify_all();
        assert(!self.queue.closed ==> self.close_wakers() =~= crate::util::event::wakers(
            self.send_ops.states,
            self.send_ops.notified,
            self.send_ops.keys.len() as int,
        ) + crate::util::event::wakers(
            self.stream_ops.states,
            self.stream_ops.notified,
            self.stream_ops.keys.len() as int,
        ));
    }

    /// A closed channel stays closed, and to close it again changes nothing.
    pub proof fn law_closed_for_good(self)
        requires
            self.queue.closed,
        ensures
            self.close() == self,
            self.received().queue.closed,
            self.sender_dropped().queue.closed,
            self.receiver_dropped().queue.closed,
    {
    }

    /// The loss of the last sender, or of the last receiver, closes the channel.
    pub proof fn law_last_end_closes(self)
        ensures
            self.senders == 1 ==> self.sender_dropped().queue.closed,
            self.receivers == 1 ==> self.receiver_dropped().queue.closed,
    {
    }

    /// A task that waits is known to the channel until it picks up its notification or gives up:
    /// nothing that happens at another end removes it.
    pub proof fn law_waiting_tasks_stay(self, msg: T)
        ensures
            self.send_done(msg).send_ops.keys == self.send_ops.keys,
            self.send_done(msg).stream_ops.keys == self.stream_ops.keys,
            self.received().send_ops.keys == self.send_ops.keys,
            self.received().stream_ops.keys == self.stream_ops.keys,
            self.close().send_ops.keys == self.send_ops.keys,
            self.close().stream_ops.keys == self.stream_ops.keys,
    {
    }

    /// A message that is put into the channel reaches every task that waits for the stream.
    pub proof fn law_sent_message_is_announced(self, msg: T)
        requires
            self.wf(),
        ensures
            self.sent(msg).stream_ops.notified == self.stream_ops.keys.len(),
    {
        self.stream_ops.lemma_notify_all();
    }

    /// A channel with another list of tasks that wait to send.
    pub open spec fn with_send_ops(self, send_ops: crate::util::event::ListView<W>) -> ChannelView<
        T,
        W,
    > {
        ChannelView { send_ops, ..self }
    }

    /// A channel with another list of tasks that wait for the stream.
    pub open spec fn with_stream_ops(
        self,
        stream_ops: crate::util::event::ListView<W>,
    ) -> ChannelView<T, W> {
        ChannelView { stream_ops, ..self }
    }
}

/// The state that senders and receivers share.
pub struct Channel<T, W> {
    queue: Bounded<T>,
    send_ops: Event<W>,
    recv_ops: Event<W>,
    stream_ops: Event<W>,
    sender_count: usize,
    receiver_count: usize,
    id: Ghost<int>,
}

/// An id for a channel, of which nothing is known.
proof fn some_id() -> int {
    arbitrary()
}

impl<T, W> View for Channel<T, W> {
    type V = ChannelView<T, W>;

    closed spec fn view(&self) -> ChannelView<T, W> {
        ChannelView {
            id: self.id@,
            queue: self.queue@,
            send_ops: self.send_ops@,
            recv_ops: self.recv_ops@,
            stream_ops: self.stream_ops@,
            senders: self.sender_count as int,
            receivers: self.receiver_count as int,
        }
    }
}

impl<T, W> Channel<T, W> {
    pub closed spec fn wf(&self) -> bool {
        &&& self.parts()
        &&& self@.wf()
    }

    spec fn parts(&self) -> bool {
        &&& self.queue.wf()
        &&& self.send_ops.wf()
        &&& self.recv_ops.wf()
        &&& self.stream_ops.wf()
    }

    /// No task waits in vain. A task that waits for the stream and was not notified has nothing to
    /// receive and no end to learn of. A task that waits to send and was not notified finds no room,
    /// or another task has been told of it; and no such task is left once the channel is closed.
    pub proof fn law_no_task_waits_in_vain(&self)
        requires
            self.wf(),
        ensures
            self@.wf(),
            self@.stream_ops.notified < self@.stream_ops.keys.len() ==> self@.queue.items.len() == 0
                && !self@.queue.closed,
            self@.send_ops.notified < self@.send_ops.keys.len() ==> !self@.queue.closed && (
            self@.is_full() || self@.send_ops.notified >= 1),
    {
    }

    /// The number of senders.
    pub fn sender_count(&self) -> (count: usize)
        ensures
            count == self@.senders,
    {
        self.sender_count
    }

    /// The number of receivers.
    pub fn receiver_count(&self) -> (count: usize)
        ensures
            count == self@.receivers,
    {
        self.receiver_count
    }

    /// Closes the channel, which notifies every task that waits. Returns whether it was open.
    pub fn close(&mut self, woken: &mut Vec<W>) -> (closed: bool)
        requires
            old(self).wf(),
        ensures
            final(self).wf(),
            closed == !old(self)@.queue.closed,
            final(self)@ == old(self)@.close(),
            final(woken)@ == old(woken)@ + old(self)@.close_wakers(),
    {
        let ghost pre = self@;
        if self.queue.close() {
            proof {
                pre.send_ops.lemma_notify_all();
                pre.recv_ops.lemma_notify_all();
                pre.stream_ops.lemma_notify_all();
            }
            // Notify all send operations.
            self.send_ops.notify(usize::MAX, woken);

            // Notify all receive and stream operations.
            self.recv_ops.notify(usize::MAX, woken);
            self.stream_ops.notify(usize::MAX, woken);
            assert(woken@ =~= old(woken)@ + pre.close_wakers());
            true
        } else {
            assert(self@.queue == pre.queue);
            assert(woken@ =~= old(woken)@ + pre.close_wakers());
            false
        }
    }
}

/// A channel with room for `cap` messages, with one sender and one receiver.
pub fn bounded<T, W>(cap: usize) -> (ends: (Channel<T, W>, Sender, Receiver))
    requires
        0 < cap <= usize::MAX / 4,
    ensures
        ends.0.wf(),
        ends.0@.queue.items == Seq::<T>::empty(),
        ends.0@.queue.cap == cap,
        !ends.0@.queue.closed,
        ends.0@.send_ops.keys.len() == 0,
        ends.0@.recv_ops.keys.len() == 0,
        ends.0@.stream_ops.keys.len() == 0,
        ends.1.channel() == ends.0@.id,
        ends.2.channel() == ends.0@.id,
        ends.0@.senders == 1,
        ends.0@.receivers == 1,
        ends.2@ is None,
        ends.2.wf(),
{
    let id: Ghost<int> = Ghost(some_id());
    let channel = Channel {
        queue: Bounded::new(cap),
        send_ops: Event::new(),
        recv_ops: Event::new(),
        stream_ops: Event::new(),
        sender_count: 1,
        receiver_count: 1,
        id,
    };
    (channel, Sender { channel: id }, Receiver { listener: None, channel: id })
}

/// An end that messages are put into.
pub struct Sender {
    channel: Ghost<int>,
}

impl Sender {
    /// The channel that it puts messages into.
    pub closed spec fn channel(&self) -> int {
        self.channel@
    }

    /// Puts a message into the channel, if there is room.
    pub fn try_send<T, W>(&self, channel: &mut Channel<T, W>, msg: T, woken: &mut Vec<W>) -> (result:
        Result<(), TrySendError<T>>)
        requires
            old(channel).wf(),
            self.channel() == old(channel)@.id,
        ensures
            final(channel).wf(),
            old(channel)@.queue.closed ==> {
                &&& result == Err::<(), TrySendError<T>>(TrySendError::Closed(msg))
                &&& final(channel)@ == old(channel)@
                &&& final(woken)@ == old(woken)@
            },
            !old(channel)@.queue.closed && old(channel)@.is_full() ==> {
                &&& result == Err::<(), TrySendError<T>>(TrySendError::Full(msg))
                &&& final(channel)@ == old(channel)@
                &&& final(woken)@ == old(woken)@
            },
            !old(channel)@.queue.closed && !old(channel)@.is_full() ==> {
                &&& result == Ok::<(), TrySendError<T>>(())
                &&& final(channel)@ == old(channel)@.sent(msg)
                &&& final(woken)@ == old(woken)@ + old(channel)@.sent_wakers()
            },
    {
        let ghost pre = channel@;
        match channel.queue.push(msg) {
            Ok(()) => {
                proof {
                    pre.recv_ops.lemma_notify(1);
                    pre.stream_ops.lemma_notify_all();
                }
                // Notify a single blocked receive operation. If the notified operation then
                // receives a message or gets canceled, it will notify another blocked receive
                // operation.
                channel.recv_ops.notify(1, woken);

                // Notify all blocked streams.
                channel.stream_ops.notify(usize::MAX, woken);
                assert(woken@ =~= old(woken)@ + pre.sent_wakers());
                Ok(())
            },
            Err(err) => Err(err),
        }
    }

    /// Sends a message as soon as there is room for it.
    pub fn send<T>(&self, msg: T) -> (fut: SendFuture<T>)
        ensures
            fut.wf(),
            fut.channel() == self.channel(),
            fut@ == (SendFutureView { channel: self.channel(), key: None, msg: Some(msg) }),
    {
        SendFuture { listener: None, msg: Some(msg), channel: self.channel }
    }

    /// Closes the channel, which notifies every task that waits. Returns whether it was open.
    pub fn close<T, W>(&self, channel: &mut Channel<T, W>, woken: &mut Vec<W>) -> (closed: bool)
        requires
            old(channel).wf(),
            self.channel() == old(channel)@.id,
        ensures
            final(channel).wf(),
            closed == !old(channel)@.queue.closed,
            final(channel)@ == old(channel)@.close(),
            final(woken)@ == old(woken)@ + old(channel)@.close_wakers(),
    {
        channel.close(woken)
    }

    /// A handle for the same channel that does not count as a sender.
    pub fn downgrade(&self) -> (weak: WeakSender)
        ensures
            weak.channel() == self.channel(),
    {
        WeakSender { channel: self.channel }
    }

    /// One more sender.
    pub fn clone_sender<T, W>(channel: &mut Channel<T, W>) -> (sender: Sender)
        requires
            old(channel).wf(),
            old(channel)@.senders <= usize::MAX / 2,
        ensures
            final(channel).wf(),
            sender.channel() == old(channel)@.id,
            final(channel)@ == (ChannelView {
                senders: old(channel)@.senders + 1,
                ..old(channel)@
            }),
    {
        channel.sender_count = channel.sender_count + 1;
        Sender { channel: channel.id }
    }

    /// One more sender.
    pub fn clone<T, W>(&self, channel: &mut Channel<T, W>) -> (sender: Sender)
        requires
            old(channel).wf(),
            self.channel() == old(channel)@.id,
            old(channel)@.senders <= usize::MAX / 2,
        ensures
            final(channel).wf(),
            sender.channel() == self.channel(),
            final(channel)@ == (ChannelView {
                senders: old(channel)@.senders + 1,
                ..old(channel)@
            }),
    {
        Self::clone_sender(channel)
    }

    /// Gives up the sender. Without senders the channel is closed.
    pub fn drop<T, W>(self, channel: &mut Channel<T, W>, woken: &mut Vec<W>)
        requires
            old(channel).wf(),
            self.channel() == old(channel)@.id,
            old(channel)@.senders > 0,
        ensures
            final(channel).wf(),
            final(channel)@ == old(channel)@.sender_dropped(),
            final(woken)@ == old(woken)@ + (if old(channel)@.senders == 1 {
                old(channel)@.close_wakers()
            } else {
                Seq::<W>::empty()
            }),
    {
        // Decrement the sender count and close the channel if it drops down to zero.
        if channel.sender_count == 1 {
            channel.close(woken);
            channel.sender_count = 0;
        } else {
            channel.sender_count = channel.sender_count - 1;
            assert(woken@ =~= old(woken)@ + Seq::<W>::empty());
        }
    }
}

/// What a pending send is: the channel that it goes to, the key under which its task waits, and the
/// message.
pub ghost struct SendFutureView<T> {
    pub channel: int,
    pub key: Option<usize>,
    pub msg: Option<T>,
}

/// A message that is sent as soon as there is room for it.
pub struct SendFuture<T> {
    listener: Option<EventListener>,
    msg: Option<T>,
    channel: Ghost<int>,
}

impl<T> View for SendFuture<T> {
    type V = SendFutureView<T>;

    closed spec fn view(&self) -> SendFutureView<T> {
        SendFutureView {
            channel: self.channel@,
            key: match self.listener {
                Some(listener) => listener@,
                None => None,
            },
            msg: self.msg,
        }
    }
}

impl<T> SendFuture<T> {
    pub closed spec fn wf(&self) -> bool {
        self.listener matches Some(listener) ==> listener@ is Some
    }

    /// The channel that it goes to.
    pub open spec fn channel(&self) -> int {
        self@.channel
    }

    /// A task that waits to send is known to the channel.
    pub open spec fn waits_in<W>(&self, channel: ChannelView<T, W>) -> bool {
        self@.key matches Some(key) ==> channel.send_ops.keys.contains(key)
    }

    /// Tries to send the message, for the task that `waker` wakes. `keep` says that the waker
    /// registered before wakes the same task, and is kept in place of the new one.
    pub fn poll<W>(
        &mut self,
        channel: &mut Channel<T, W>,
        waker: W,
        keep: bool,
        woken: &mut Vec<W>,
    ) -> (poll: Poll<Result<(), ActixAsyncError>>)
        requires
            old(channel).wf(),
            old(self).channel() == old(channel)@.id,
            old(self).wf(),
            old(self).waits_in(old(channel)@),
            old(self)@.msg is Some,
        ensures
            final(channel).wf(),
            final(self).wf(),
            final(self).channel() == old(self).channel(),
            final(self).waits_in(final(channel)@),
            old(channel)@.queue.closed ==> {
                &&& poll == Poll::Ready(Err::<(), ActixAsyncError>(ActixAsyncError::Closed))
                &&& final(channel)@ == old(channel)@
                &&& final(self)@ == (SendFutureView { msg: None, ..old(self)@ })
                &&& final(woken)@ == old(woken)@
            },
            !old(channel)@.queue.closed && !old(channel)@.is_full() ==> {
                &&& poll == Poll::Ready(Ok::<(), ActixAsyncError>(()))
                &&& final(channel)@ == old(channel)@.send_done(old(self)@.msg->0)
                &&& final(self)@ == (SendFutureView { msg: None, ..old(self)@ })
                &&& final(woken)@ == old(woken)@ + old(channel)@.send_done_wakers()
            },
            !old(channel)@.queue.closed && old(channel)@.is_full() ==> {
                &&& poll is Pending
                &&& final(self)@.key is Some
                &&& final(self)@.msg == old(self)@.msg
                &&& old(channel)@.send_ops.registers(
                    old(self)@.key,
                    final(self)@.key->0,
                    waker,
                    keep,
                    final(channel)@.send_ops,
                )
                &&& final(channel)@ == old(channel)@.with_send_ops(final(channel)@.send_ops)
                &&& final(woken)@ == old(woken)@
            },
    {
        let ghost pre = channel@;
        let msg = match self.msg.take() {
            Some(msg) => msg,
            None => vstd::pervasive::unreached(),
        };
        let sender = Sender { channel: self.channel };
        match sender.try_send(channel, msg, woken) {
            Ok(()) => {
                // If the capacity is larger than 1, notify another blocked send operation.
                if channel.queue.capacity() != 1 {
                    proof {
                        pre.send_ops.lemma_notify(1);
                    }
                    channel.send_ops.notify(1, woken);
                }
                assert(woken@ =~= old(woken)@ + pre.send_done_wakers());
                Poll::Ready(Ok(()))
            },
            Err(TrySendError::Closed(_)) => Poll::Ready(Err(ActixAsyncError::Closed)),
            Err(TrySendError::Full(msg)) => {
                self.msg = Some(msg);
                let mut waker = waker;
                // Sending failed - wait for a notification.
                match self.listener.take() {
                    Some(listener) => {
                        let mut listener = listener;
                        match listener.poll(&mut channel.send_ops, waker, keep) {
                            Poll::Ready(unused) => {
                                proof {
                                    let key = old(self)@.key->0;
                                    pre.send_ops.lemma_removed(pre.send_ops.at(key));
                                }
                                // There is still no room: wait for another one.
                                waker = unused;
                            },
                            Poll::Pending => {
                                self.listener = Some(listener);
                                return Poll::Pending;
                            },
                        }
                    },
                    None => {},
                }
                // Start listening for notifications.
                let ghost rest = channel.send_ops@;
                proof {
                    channel.send_ops.lemma_wf();
                }
                let mut listener = channel.send_ops.listen();
                proof {
                    rest.lemma_waiting(listener@->0, waker, keep);
                }
                let _ = listener.poll(&mut channel.send_ops, waker, keep);
                proof {
                    channel.send_ops.lemma_wf();
                }
                self.listener = Some(listener);
                Poll::Pending
            },
        }
    }

    /// Gives up the send. A notification that its task had received is passed on.
    pub fn drop<W>(self, channel: &mut Channel<T, W>, woken: &mut Vec<W>)
        requires
            old(channel).wf(),
            self.channel() == old(channel)@.id,
            self.wf(),
            self.waits_in(old(channel)@),
        ensures
            final(channel).wf(),
            final(channel)@ == old(channel)@.with_send_ops(
                match self@.key {
                    Some(key) => old(channel)@.send_ops.dropped(old(channel)@.send_ops.at(key)),
                    None => old(channel)@.send_ops,
                },
            ),
            final(woken)@ == (match self@.key {
                Some(key) => old(woken)@ + old(channel)@.send_ops.passed_wakers(
                    old(channel)@.send_ops.at(key),
                ),
                None => old(woken)@,
            }),
    {
        match self.listener {
            Some(listener) => {
                proof {
                    let ops = channel.send_ops@;
                    ops.lemma_removed(ops.at(listener@->0));
                }
                listener.drop(&mut channel.send_ops, woken);
            },
            None => {},
        }
    }
}

/// A handle from which a sender can be made, as long as the channel has an end.
pub struct WeakSender {
    channel: Ghost<int>,
}

impl WeakSender {
    /// The channel that its senders put messages into.
    pub closed spec fn channel(&self) -> int {
        self.channel@
    }

    /// One more handle of the same kind, for the same channel.
    pub fn clone(&self) -> (weak: WeakSender)
        ensures
            weak.channel() == self.channel(),
    {
        WeakSender { channel: self.channel }
    }

    /// A sender, if the channel has a sender or a receiver left.
    pub fn upgrade<T, W>(&self, channel: &mut Channel<T, W>) -> (sender: Option<Sender>)
        requires
            old(channel).wf(),
            self.channel() == old(channel)@.id,
            old(channel)@.senders < usize::MAX,
        ensures
            final(channel).wf(),
            sender is Some <==> old(channel)@.senders + old(channel)@.receivers > 0,
            sender matches Some(s) ==> s.channel() == self.channel(),
            final(channel)@ == (if sender is Some {
                ChannelView { senders: old(channel)@.senders + 1, ..old(channel)@ }
            } else {
                old(channel)@
            }),
    {
        if channel.sender_count == 0 && channel.receiver_count == 0 {
            None
        } else {
            channel.sender_count = channel.sender_count + 1;
            Some(Sender { channel: channel.id })
        }
    }
}

/// An end that messages are taken out of. It is the stream of messages too.
pub struct Receiver {
    listener: Option<EventListener>,
    channel: Ghost<int>,
}

impl View for Receiver {
    type V = Option<usize>;

    /// The key under which the task of the stream waits.
    closed spec fn view(&self) -> Option<usize> {
        match self.listener {
            Some(listener) => listener@,
            None => None,
        }
    }
}

impl Receiver {
    pub closed spec fn wf(&self) -> bool {
        self.listener matches Some(listener) ==> listener@ is Some
    }

    /// The channel that messages are taken out of.
    pub closed spec fn channel(&self) -> int {
        self.channel@
    }

    /// A task that waits for the stream is known to the channel.
    pub open spec fn waits_in<T, W>(&self, channel: ChannelView<T, W>) -> bool {
        self@ matches Some(key) ==> channel.stream_ops.keys.contains(key)
    }

    /// Takes a message out of the channel, if there is one.
    pub fn try_recv<T, W>(&self, channel: &mut Channel<T, W>, woken: &mut Vec<W>) -> (result: Result<
        T,
        TryRecvError,
    >)
        requires
            old(channel).wf(),
            self.channel() == old(channel)@.id,
        ensures
            final(channel).wf(),
            old(channel)@.queue.items.len() == 0 ==> {
                &&& result == Err::<T, TryRecvError>(
                    if old(channel)@.queue.closed {
                        TryRecvError::Closed
                    } else {
                        TryRecvError::Empty
                    },
                )
                &&& final(channel)@ == old(channel)@
                &&& final(woken)@ == old(woken)@
            },
            old(channel)@.queue.items.len() > 0 ==> {
                &&& result == Ok::<T, TryRecvError>(old(channel)@.queue.items[0])
                &&& final(channel)@ == old(channel)@.received()
                &&& final(woken)@ == old(woken)@ + old(channel)@.received_wakers()
            },
    {
        match channel.queue.pop() {
            Ok(msg) => {
                proof {
                    channel.send_ops@.lemma_notify(1);
                }
                // Notify a single blocked send operation. If the notified operation then sends a
                // message or gets canceled, it will notify another blocked send operation.
                channel.send_ops.notify(1, woken);
                Ok(msg)
            },
            Err(err) => Err(err),
        }
    }

    /// A sender for the same channel, unless it is closed.
    pub fn as_sender<T, W>(&self, channel: &mut Channel<T, W>) -> (sender: Option<Sender>)
        requires
            old(channel).wf(),
            self.channel() == old(channel)@.id,
            old(channel)@.queue.closed || old(channel)@.senders <= usize::MAX / 2,
        ensures
            final(channel).wf(),
            sender is Some <==> !old(channel)@.queue.closed,
            sender matches Some(s) ==> s.channel() == self.channel(),
            final(channel)@ == (if sender is Some {
                ChannelView { senders: old(channel)@.senders + 1, ..old(channel)@ }
            } else {
                old(channel)@
            }),
    {
        if channel.queue.is_closed() {
            None
        } else {
            Some(Sender::clone_sender(channel))
        }
    }

    /// Closes the channel, which notifies every task that waits. Returns whether it was open.
    pub fn close<T, W>(&self, channel: &mut Channel<T, W>, woken: &mut Vec<W>) -> (closed: bool)
        requires
            old(channel).wf(),
            self.channel() == old(channel)@.id,
        ensures
            final(channel).wf(),
            closed == !old(channel)@.queue.closed,
            final(channel)@ == old(channel)@.close(),
            final(woken)@ == old(woken)@ + old(channel)@.close_wakers(),
    {
        channel.close(woken)
    }

    /// The next message of the stream, for the task that `waker` wakes. The stream is over when
    /// the channel is closed and holds no message. `keep` says that the waker registered before
    /// wakes the same task, and is kept in place of the new one.
    pub fn poll_next<T, W>(
        &mut self,
        channel: &mut Channel<T, W>,
        waker: W,
        keep: bool,
        woken: &mut Vec<W>,
    ) -> (poll: Poll<Option<T>>)
        requires
            old(channel).wf(),
            old(self).channel() == old(channel)@.id,
            old(self).wf(),
            old(self).waits_in(old(channel)@),
        ensures
            final(channel).wf(),
            final(self).wf(),
            final(self).channel() == old(self).channel(),
            final(self).waits_in(final(channel)@),
            ({
                let pre = old(channel)@;
                let ready = pre.with_stream_ops(pre.stream_ops.picked_up(old(self)@));
                if old(self)@ is Some && !pre.stream_ops.is_notified(old(self)@->0) {
                    // Nothing has happened yet.
                    &&& poll is Pending
                    &&& final(self)@ == old(self)@
                    &&& final(channel)@ == pre.with_stream_ops(
                        pre.stream_ops.polled(pre.stream_ops.at(old(self)@->0), waker, keep),
                    )
                    &&& final(woken)@ == old(woken)@
                } else if pre.queue.items.len() > 0 {
                    &&& poll == Poll::Ready(Some(pre.queue.items[0]))
                    &&& final(self)@ is None
                    &&& final(channel)@ == ready.received()
                    &&& final(woken)@ == old(woken)@ + pre.received_wakers()
                } else if pre.queue.closed {
                    &&& poll == Poll::Ready(None::<T>)
                    &&& final(self)@ is None
                    &&& final(channel)@ == ready
                    &&& final(woken)@ == old(woken)@
                } else {
                    &&& poll is Pending
                    &&& final(self)@ is Some
                    &&& !ready.stream_ops.keys.contains(final(self)@->0)
                    &&& final(channel)@ == ready.with_stream_ops(
                        ready.stream_ops.waiting(final(self)@->0, waker),
                    )
                    &&& final(woken)@ == old(woken)@
                }
            }),
    {
        let ghost pre = channel@;
        let mut waker = waker;
        // If this stream is listening for events, first wait for a notification.
        match self.listener.take() {
            Some(listener) => {
                let mut listener = listener;
                match listener.poll(&mut channel.stream_ops, waker, keep) {
                    Poll::Ready(unused) => {
                        proof {
                            let key = old(self)@->0;
                            pre.stream_ops.lemma_removed(pre.stream_ops.at(key));
                        }
                        waker = unused;
                    },
                    Poll::Pending => {
                        self.listener = Some(listener);
                        return Poll::Pending;
                    },
                }
            },
            None => {},
        }
        // Attempt to receive a message.
        match self.try_recv(channel, woken) {
            Ok(msg) => Poll::Ready(Some(msg)),
            Err(TryRecvError::Closed) => Poll::Ready(None),
            Err(TryRecvError::Empty) => {
                // Receiving failed - now start listening for notifications.
                let ghost rest = channel.stream_ops@;
                proof {
                    channel.stream_ops.lemma_wf();
                }
                let mut listener = channel.stream_ops.listen();
                proof {
                    rest.lemma_waiting(listener@->0, waker, keep);
                }
                let _ = listener.poll(&mut channel.stream_ops, waker, keep);
                proof {
                    channel.stream_ops.lemma_wf();
                }
                self.listener = Some(listener);
                Poll::Pending
            },
        }
    }

    /// One more receiver, whose task does not wait yet.
    pub fn clone<T, W>(&self, channel: &mut Channel<T, W>) -> (receiver: Receiver)
        requires
            old(channel).wf(),
            self.channel() == old(channel)@.id,
            old(channel)@.receivers <= usize::MAX / 2,
        ensures
            final(channel).wf(),
            receiver@ is None,
            receiver.wf(),
            receiver.channel() == self.channel(),
            final(channel)@ == (ChannelView {
                receivers: old(channel)@.receivers + 1,
                ..old(channel)@
            }),
    {
        channel.receiver_count = channel.receiver_count + 1;
        Receiver { listener: None, channel: self.channel }
    }

    /// Gives up the receiver. Without receivers the channel is closed. A notification that the
    /// task of the stream had received is passed on.
    pub fn drop<T, W>(self, channel: &mut Channel<T, W>, woken: &mut Vec<W>)
        requires
            old(channel).wf(),
            self.channel() == old(channel)@.id,
            self.wf(),
            self.waits_in(old(channel)@),
            old(channel)@.receivers > 0,
        ensures
            final(channel).wf(),
            ({
                let rest = old(channel)@.receiver_dropped();
                let closing = if old(channel)@.receivers == 1 {
                    old(channel)@.close_wakers()
                } else {
                    Seq::<W>::empty()
                };
                match self@ {
                    Some(key) => {
                        let at = rest.stream_ops.at(key);
                        &&& final(channel)@ == rest.with_stream_ops(rest.stream_ops.dropped(at))
                        &&& final(woken)@ == old(woken)@ + closing
                            + rest.stream_ops.passed_wakers(at)
                    },
                    None => {
                        &&& final(channel)@ == rest
                        &&& final(woken)@ == old(woken)@ + closing
                    },
                }
            }),
    {
        // Decrement the receiver count and close the channel if it drops down to zero.
        if channel.receiver_count == 1 {
            channel.close(woken);
            channel.receiver_count = 0;
        } else {
            channel.receiver_count = channel.receiver_count - 1;
            assert(woken@ =~= old(woken)@ + Seq::<W>::empty());
        }
        match self.listener {
            Some(listener) => {
                proof {
                    let ops = channel.stream_ops@;
                    ops.lemma_removed(ops.at(listener@->0));
                }
                listener.drop(&mut channel.stream_ops, woken);
            },
            None => {},
        }
    }
}

} // verus!
