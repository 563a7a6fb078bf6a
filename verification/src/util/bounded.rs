//! A bounded queue on a ring of stamped slots.

#![allow(deprecated)]

use cache_padded::CachePadded;
use vstd::prelude::*;

use crate::util::padded::{load_index, pad_index, store_index};


verus! {

/// Why a value was not pushed. The value comes back.
#[derive(Debug, PartialEq, Eq)]
pub enum TrySendError<T> {
    /// The queue holds as many values as it has room for.
    Full(T),
    /// The queue is closed.
    Closed(T),
}

/// Why no value was popped.
#[derive(Clone, Copy, Debug, PartialEq, Eq, Structural)]
pub enum TryRecvError {
    /// The queue holds no value now.
    Empty,
    /// The queue holds no value, and is closed.
    Closed,
}

/// A place for one value. The stamp tells in which lap it is to be filled or emptied.
struct Slot<T> {
    stamp: usize,
    value: Option<T>,
}

/// What a queue is: its values, the oldest first, the room it has and whether it is closed.
pub ghost struct BoundedView<T> {
    pub items: Seq<T>,
    pub cap: nat,
    pub closed: bool,
}

/// A call on a queue.
pub ghost enum Call<T> {
    Push(T),
    Pop,
    Close,
}

impl<T> BoundedView<T> {
    /// A queue with room for `cap` values, which holds none.
    pub open spec fn fresh(cap: nat) -> BoundedView<T> {
        BoundedView { items: Seq::empty(), cap, closed: false }
    }

    /// Whether a value that is pushed goes into the queue.
    pub open spec fn has_room(self) -> bool {
        !self.closed && self.items.len() < self.cap
    }

    /// The queue after a push, which changes nothing if it fails.
    pub open spec fn push(self, value: T) -> BoundedView<T> {
        if self.has_room() {
            BoundedView { items: self.items.push(value), ..self }
        } else {
            self
        }
    }

    /// The queue after a pop, which changes nothing if it fails.
    pub open spec fn pop(self) -> BoundedView<T> {
        if self.items.len() > 0 {
            BoundedView { items: self.items.drop_first(), ..self }
        } else {
            self
        }
    }

    /// The queue after it is closed.
    pub open spec fn close(self) -> BoundedView<T> {
        BoundedView { closed: true, ..self }
    }

    /// The queue after a call.
    pub open spec fn called(self, call: Call<T>) -> BoundedView<T> {
        match call {
            Call::Push(value) => self.push(value),
            Call::Pop => self.pop(),
            Call::Close => self.close(),
        }
    }

    /// The queue after calls, one after the other.
    pub open spec fn called_all(self, calls: Seq<Call<T>>) -> BoundedView<T>
        decreases calls.len(),
    {
        if calls.len() == 0 {
            self
        } else {
            self.called_all(calls.drop_last()).called(calls.last())
        }
    }

    /// How many of the pushes among the calls succeed.
    pub open spec fn pushes(self, calls: Seq<Call<T>>) -> nat
        decreases calls.len(),
    {
        if calls.len() == 0 {
            0
        } else {
            let pre = self.called_all(calls.drop_last());
            self.pushes(calls.drop_last()) + (if calls.last() is Push && pre.has_room() {
                1nat
            } else {
                0
            })
        }
    }

    /// How many of the pops among the calls succeed.
    pub open spec fn pops(self, calls: Seq<Call<T>>) -> nat
        decreases calls.len(),
    {
        if calls.len() == 0 {
            0
        } else {
            let pre = self.called_all(calls.drop_last());
            self.pops(calls.drop_last()) + (if calls.last() is Pop && pre.items.len() > 0 {
                1nat
            } else {
                0
            })
        }
    }

    /// After any calls a queue that was new holds as many values as were pushed and not popped, and
    /// never more than it has room for. The room stays the same.
    pub proof fn law_len(cap: nat, calls: Seq<Call<T>>)
        ensures
            ({
                let fresh = BoundedView::<T>::fresh(cap);
                let post = fresh.called_all(calls);
                &&& post.items.len() == fresh.pushes(calls) - fresh.pops(calls)
                &&& 0 <= post.items.len() <= post.cap
                &&& post.cap == cap
            }),
        decreases calls.len(),
    {
        if calls.len() > 0 {
            Self::law_len(cap, calls.drop_last());
        }
    }

    /// A value goes to the end of a queue that is open and has room, and comes out at the front: the
    /// others keep their order. A call changes nothing else.
    pub proof fn law_first_in_first_out(self, value: T)
        ensures
            self.has_room() <==> !self.closed && self.items.len() < self.cap,
            self.has_room() ==> {
                &&& self.push(value).items == self.items.push(value)
                &&& self.push(value).closed == self.closed
                &&& self.push(value).cap == self.cap
            },
            self.items.len() > 0 ==> {
                &&& self.pop().items.len() == self.items.len() - 1
                &&& forall|i: int|
                    0 <= i < self.pop().items.len() ==> #[trigger] self.pop().items[i]
                        == self.items[i + 1]
                &&& self.pop().closed == self.closed
                &&& self.pop().cap == self.cap
            },
            self.close().closed,
            self.close().items == self.items,
            self.close().cap == self.cap,
            BoundedView::<T>::fresh(self.cap).items.len() == 0,
            !BoundedView::<T>::fresh(self.cap).closed,
            BoundedView::<T>::fresh(self.cap).cap == self.cap,
    {
    }

    /// Closing the queue, and pushes and pops that fail, do not change how many values it holds.
    pub proof fn law_len_is_kept(self, value: T)
        ensures
            self.close().items == self.items,
            !self.has_room() ==> self.push(value) == self,
            self.items.len() == 0 ==> self.pop() == self,
    {
    }
}

/// Whether `m` is a power of two.
pub open spec fn is_power_of_two(m: usize) -> bool {
    m != 0 && m & (m - 1) as usize == 0
}

/// `usize::next_power_of_two`: the smallest power of two that is not less than the number.
pub assume_specification[ usize::next_power_of_two ](x: usize) -> (m: usize)
    requires
        x <= usize::MAX / 2 + 1,
    ensures
        is_power_of_two(m),
        x <= m,
        m == 1 || m / 2 < x,
;

/// A queue for a fixed number of values.
///
/// Head and tail are positions `{ lap, mark, index }`. The index fills the bits below `mark_bit`
/// and the lap those from `one_lap` up; laps wrap around. The mark bit of the tail says that the
/// queue is closed.
pub struct Bounded<T> {
    head: CachePadded<usize>,
    tail: CachePadded<usize>,
    buffer: Vec<Slot<T>>,
    one_lap: usize,
    mark_bit: usize,
}

/// The three parts of a position can be told apart by their bits.
proof fn lemma_decode(lap: usize, index: usize, mark_bit: usize)
    by (bit_vector)
    requires
        mark_bit != 0,
        mark_bit & (mark_bit - 1) as usize == 0,
        mark_bit <= !0usize / 4 + 1,
        index < mark_bit,
        lap & (mark_bit * 2 - 1) as usize == 0,
    ensures
        lap + mark_bit + index <= !0usize,
        lap + mark_bit * 2 - 1 <= !0usize,
        ((lap + index) as usize) & mark_bit == 0,
        ((lap + index) as usize) & (mark_bit - 1) as usize == index,
        ((lap + index) as usize) & !((mark_bit * 2 - 1) as usize) == lap,
        ((lap + index) as usize) & !mark_bit == (lap + index) as usize,
        ((lap + index) as usize) | mark_bit == (lap + mark_bit + index) as usize,
        ((lap + mark_bit + index) as usize) & mark_bit != 0,
        ((lap + mark_bit + index) as usize) & (mark_bit - 1) as usize == index,
        ((lap + mark_bit + index) as usize) & !((mark_bit * 2 - 1) as usize) == lap,
        ((lap + mark_bit + index) as usize) & !mark_bit == (lap + index) as usize,
        ((lap + mark_bit + index) as usize) | mark_bit == (lap + mark_bit + index) as usize,
{
}

/// The lap after `lap` is a lap too.
proof fn lemma_next_lap(lap: usize, mark_bit: usize, next: usize)
    by (bit_vector)
    requires
        mark_bit != 0,
        mark_bit & (mark_bit - 1) as usize == 0,
        mark_bit <= !0usize / 4 + 1,
        lap & (mark_bit * 2 - 1) as usize == 0,
        lap + mark_bit * 2 > !0usize ==> next + !0usize + 1 == lap + mark_bit * 2,
        lap + mark_bit * 2 <= !0usize ==> next == lap + mark_bit * 2,
    ensures
        next & (mark_bit * 2 - 1) as usize == 0,
{
}

/// A number with every bit set is the largest one.
proof fn lemma_all_ones(x: usize)
    by (bit_vector)
    ensures
        x <= !0usize,
{
}

proof fn lemma_max()
    ensures
        !0usize == usize::MAX,
{
    lemma_all_ones(usize::MAX);
}

/// No bit is set in zero.
proof fn lemma_zero(m: usize)
    by (bit_vector)
    ensures
        0usize & m == 0,
{
}

impl<T> Bounded<T> {
    spec fn hix(&self) -> usize {
        crate::util::padded::padded_index(self.head) & (self.mark_bit - 1) as usize
    }

    spec fn hlap(&self) -> usize {
        crate::util::padded::padded_index(self.head) & !((self.one_lap - 1) as usize)
    }

    spec fn tix(&self) -> usize {
        crate::util::padded::padded_index(self.tail) & (self.mark_bit - 1) as usize
    }

    spec fn tlap(&self) -> usize {
        crate::util::padded::padded_index(self.tail) & !((self.one_lap - 1) as usize)
    }

    spec fn marked(&self) -> bool {
        crate::util::padded::padded_index(self.tail) & self.mark_bit != 0
    }

    /// The number of values: the tail is in the lap of the head, or one lap ahead.
    spec fn size(&self) -> int {
        if self.hlap() == self.tlap() {
            self.tix() - self.hix()
        } else {
            self.buffer@.len() - self.hix() + self.tix()
        }
    }

    /// The index of the slot that is `k` places behind the head.
    spec fn place(&self, k: int) -> int {
        if self.hix() + k < self.buffer@.len() {
            self.hix() + k
        } else {
            self.hix() + k - self.buffer@.len()
        }
    }

    /// Whether the slot `i` lies between head and tail.
    spec fn filled(&self, i: int) -> bool {
        if self.hlap() == self.tlap() {
            self.hix() <= i < self.tix()
        } else {
            i >= self.hix() || i < self.tix()
        }
    }

    /// A slot between head and tail holds a value, and its stamp is one ahead of the position at
    /// which it is popped. The stamp of any other slot is the position at which it is pushed.
    spec fn stamped(&self, i: int) -> bool {
        let slot = self.buffer@[i];
        if self.filled(i) {
            &&& slot.value is Some
            &&& slot.stamp == (if i >= self.hix() {
                self.hlap()
            } else {
                self.tlap()
            }) + i + 1
        } else {
            &&& slot.value is None
            &&& slot.stamp == (if i >= self.tix() {
                self.tlap()
            } else {
                self.tlap().wrapping_add(self.one_lap)
            }) + i
        }
    }

    pub closed spec fn wf(&self) -> bool {
        &&& self.constants()
        &&& self.positions()
        &&& forall|i: int| 0 <= i < self.buffer@.len() ==> #[trigger] self.stamped(i)
    }

    spec fn constants(&self) -> bool {
        &&& 0 < self.buffer@.len() < self.mark_bit
        &&& is_power_of_two(self.mark_bit)
        &&& self.mark_bit <= usize::MAX / 4 + 1
        &&& self.one_lap == self.mark_bit * 2
    }

    spec fn positions(&self) -> bool {
        &&& self.hlap() & (self.one_lap - 1) as usize == 0
        &&& self.tlap() & (self.one_lap - 1) as usize == 0
        &&& self.hix() < self.buffer@.len()
        &&& self.tix() < self.buffer@.len()
        &&& crate::util::padded::padded_index(self.head) == self.hlap() + self.hix()
        &&& crate::util::padded::padded_index(self.tail) == self.tlap() + self.tix() + (if self.marked() {
            self.mark_bit
        } else {
            0
        })
        &&& {
            ||| self.hlap() == self.tlap() && self.hix() <= self.tix()
            ||| self.tlap() == self.hlap().wrapping_add(self.one_lap) && self.tix() <= self.hix()
        }
    }

    /// What is known of a queue whose constants and laps are right.
    proof fn lemma_positions(&self)
        requires
            self.constants(),
            self.positions(),
        ensures
            self.hlap() + self.one_lap - 1 <= usize::MAX,
            self.tlap() + self.one_lap - 1 <= usize::MAX,
            self.tlap().wrapping_add(self.one_lap) + self.one_lap - 1 <= usize::MAX,
            crate::util::padded::padded_index(self.tail) & !self.mark_bit == self.tlap() + self.tix(),
            self.marked() <==> crate::util::padded::padded_index(self.tail) != self.tlap() + self.tix(),
    {
        lemma_max();
        lemma_decode(self.hlap(), self.hix(), self.mark_bit);
        lemma_decode(self.tlap(), self.tix(), self.mark_bit);
        let next = self.tlap().wrapping_add(self.one_lap);
        lemma_next_lap(self.tlap(), self.mark_bit, next);
        lemma_decode(next, 0, self.mark_bit);
    }

    /// A queue with room for `cap` values.
    pub fn new(cap: usize) -> (queue: Bounded<T>)
        requires
            0 < cap <= usize::MAX / 4,
        ensures
            queue.wf(),
            queue@ == BoundedView::<T>::fresh(cap as nat),
    {
        // Allocate a buffer of `cap` slots initialized with stamps.
        let mut buffer: Vec<Slot<T>> = Vec::with_capacity(cap);
        for i in 0..cap
            invariant
                buffer@.len() == i,
                forall|j: int|
                    0 <= j < i ==> (#[trigger] buffer@[j]).stamp == j && buffer@[j].value is None,
        {
            // Set the stamp to `{ lap: 0, mark: 0, index: i }`.
            buffer.push(Slot { stamp: i, value: None });
        }

        // Compute constants `mark_bit` and `one_lap`.
        let mark_bit: usize = (cap + 1).next_power_of_two();
        proof {
            lemma_max();
            assert(mark_bit <= !0usize / 4 + 1) by (bit_vector)
                requires
                    mark_bit & (mark_bit - 1) as usize == 0,
                    mark_bit / 2 <= !0usize / 4,
            ;
        }
        let one_lap: usize = mark_bit * 2;

        // Head and tail are initialized to `{ lap: 0, mark: 0, index: 0 }`.
        let queue = Bounded { head: pad_index(0), tail: pad_index(0), buffer, one_lap, mark_bit };
        proof {
            lemma_zero((one_lap - 1) as usize);
            lemma_decode(0, 0, mark_bit);
            assert forall|i: int| 0 <= i < cap implies #[trigger] queue.stamped(i) by {}
            assert(queue@.items =~= Seq::<T>::empty());
        }
        queue
    }

    /// What a queue with other positions and the same constants is.
    proof fn lemma_moved(&self, hlap: usize, hix: usize, tlap: usize, tix: usize, marked: bool)
        requires
            self.constants(),
            hlap & (self.one_lap - 1) as usize == 0,
            tlap & (self.one_lap - 1) as usize == 0,
            hix < self.buffer@.len(),
            tix < self.buffer@.len(),
            crate::util::padded::padded_index(self.head) == hlap + hix,
            crate::util::padded::padded_index(self.tail) == tlap + tix + (if marked {
                self.mark_bit
            } else {
                0
            }),
        ensures
            self.hlap() == hlap,
            self.hix() == hix,
            self.tlap() == tlap,
            self.tix() == tix,
            self.marked() == marked,
    {
        lemma_max();
        lemma_decode(hlap, hix, self.mark_bit);
        lemma_decode(tlap, tix, self.mark_bit);
    }

    /// Puts a value at the end of the queue.
    pub fn push(&mut self, value: T) -> (result: Result<(), TrySendError<T>>)
        requires
            old(self).wf(),
        ensures
            final(self).wf(),
            result == (if old(self)@.has_room() {
                Ok::<(), TrySendError<T>>(())
            } else if old(self)@.closed {
                Err(TrySendError::Closed(value))
            } else {
                Err(TrySendError::Full(value))
            }),
            final(self)@ == old(self)@.push(value),
    {
        let tail: usize = load_index(&self.tail);
        proof {
            self.lemma_positions();
        }

        // Check if the queue is closed.
        if tail & self.mark_bit != 0 {
            return Err(TrySendError::Closed(value));
        }
        // Deconstruct the tail.
        let index: usize = tail & (self.mark_bit - 1);
        let lap: usize = tail & !(self.one_lap - 1);

        // Inspect the corresponding slot.
        let stamp: usize = self.buffer[index].stamp;
        assert(self.stamped(index as int));

        // If the tail and the stamp match, the slot is free.
        if tail == stamp {
            let new_tail: usize = if index + 1 < self.buffer.len() {
                // Same lap, incremented index.
                // Set to `{ lap: lap, mark: 0, index: index + 1 }`.
                tail + 1
            } else {
                // One lap forward, index wraps around to zero.
                // Set to `{ lap: lap.wrapping_add(1), mark: 0, index: 0 }`.
                lap.wrapping_add(self.one_lap)
            };

            // Move the tail, write the value into the slot and update the stamp.
            store_index(&mut self.tail, new_tail);
            self.buffer.set(index, Slot { stamp: tail + 1, value: Some(value) });
            proof {
                let pre = *old(self);
                let (tlap, tix) = if index + 1 < self.buffer@.len() {
                    (lap, (index + 1) as usize)
                } else {
                    (lap.wrapping_add(self.one_lap), 0usize)
                };
                lemma_max();
                lemma_next_lap(lap, self.mark_bit, lap.wrapping_add(self.one_lap));
                self.lemma_moved(pre.hlap(), pre.hix(), tlap, tix, false);
                assert forall|i: int| 0 <= i < self.buffer@.len() implies #[trigger] self.stamped(
                    i,
                ) by {
                    assert(pre.stamped(i));
                }
                assert(self@.items =~= pre@.items.push(value));
            }
            Ok(())
        } else {
            // The head lags one lap behind the tail: the queue is full.
            Err(TrySendError::Full(value))
        }
    }

    /// Takes the value at the front of the queue.
    pub fn pop(&mut self) -> (result: Result<T, TryRecvError>)
        requires
            old(self).wf(),
        ensures
            final(self).wf(),
            result == (if old(self)@.items.len() > 0 {
                Ok::<T, TryRecvError>(old(self)@.items[0])
            } else if old(self)@.closed {
                Err(TryRecvError::Closed)
            } else {
                Err(TryRecvError::Empty)
            }),
            final(self)@ == old(self)@.pop(),
    {
        let head: usize = load_index(&self.head);
        proof {
            self.lemma_positions();
            lemma_max();
            lemma_decode(self.hlap(), self.hix(), self.mark_bit);
        }

        // Deconstruct the head.
        let index: usize = head & (self.mark_bit - 1);
        let lap: usize = head & !(self.one_lap - 1);

        // Inspect the corresponding slot.
        let stamp: usize = self.buffer[index].stamp;
        assert(self.stamped(index as int));

        // If the stamp is ahead of the head by 1, the slot holds a value.
        if head + 1 == stamp {
            let new: usize = if index + 1 < self.buffer.len() {
                // Same lap, incremented index.
                // Set to `{ lap: lap, mark: 0, index: index + 1 }`.
                head + 1
            } else {
                // One lap forward, index wraps around to zero.
                // Set to `{ lap: lap.wrapping_add(1), mark: 0, index: 0 }`.
                lap.wrapping_add(self.one_lap)
            };

            // Move the head, read the value from the slot and update the stamp.
            store_index(&mut self.head, new);
            let mut slot = Slot { stamp: head.wrapping_add(self.one_lap), value: None };
            self.buffer.set_and_swap(index, &mut slot);
            proof {
                let pre = *old(self);
                let (hlap, hix) = if index + 1 < self.buffer@.len() {
                    (lap, (index + 1) as usize)
                } else {
                    (lap.wrapping_add(self.one_lap), 0usize)
                };
                let next = lap.wrapping_add(self.one_lap);
                lemma_next_lap(lap, self.mark_bit, next);
                lemma_decode(next, index, self.mark_bit);
                self.lemma_moved(hlap, hix, pre.tlap(), pre.tix(), pre.marked());
                assert forall|i: int| 0 <= i < self.buffer@.len() implies #[trigger] self.stamped(
                    i,
                ) by {
                    assert(pre.stamped(i));
                }
                assert(self@.items =~= pre@.items.drop_first());
            }
            match slot.value {
                Some(value) => Ok(value),
                None => vstd::pervasive::unreached(),
            }
        } else {
            // The tail equals the head: the queue is empty.
            let tail: usize = load_index(&self.tail);
            // Check if the queue is closed.
            if tail & self.mark_bit != 0 {
                Err(TryRecvError::Closed)
            } else {
                Err(TryRecvError::Empty)
            }
        }
    }

    /// The number of values in the queue.
    pub fn len(&self) -> (n: usize)
        requires
            self.wf(),
        ensures
            n == self@.items.len(),
    {
        let tail: usize = load_index(&self.tail);
        let head: usize = load_index(&self.head);
        proof {
            self.lemma_positions();
        }
        let hix: usize = head & (self.mark_bit - 1);
        let tix: usize = tail & (self.mark_bit - 1);
        if hix < tix {
            tix - hix
        } else if hix > tix {
            self.buffer.len() - hix + tix
        } else if tail & !self.mark_bit == head {
            0
        } else {
            self.buffer.len()
        }
    }

    /// The number of values that the queue has room for.
    pub fn capacity(&self) -> (cap: usize)
        ensures
            cap == self@.cap,
    {
        self.buffer.len()
    }

    /// Closes the queue. Returns whether it was open.
    pub fn close(&mut self) -> (closed: bool)
        requires
            old(self).wf(),
        ensures
            final(self).wf(),
            closed == !old(self)@.closed,
            final(self)@ == old(self)@.close(),
    {
        let tail: usize = load_index(&self.tail);
        store_index(&mut self.tail, tail | self.mark_bit);
        proof {
            let pre = *old(self);
            lemma_max();
            pre.lemma_positions();
            lemma_decode(pre.tlap(), pre.tix(), self.mark_bit);
            self.lemma_moved(pre.hlap(), pre.hix(), pre.tlap(), pre.tix(), true);
            assert forall|i: int| 0 <= i < self.buffer@.len() implies #[trigger] self.stamped(
                i,
            ) by {
                assert(pre.stamped(i));
            }
            assert(self@.items =~= pre@.items);
        }
        tail & self.mark_bit == 0
    }

    /// Whether the queue is closed.
    pub fn is_closed(&self) -> (closed: bool)
        ensures
            closed == self@.closed,
    {
        load_index(&self.tail) & self.mark_bit != 0
    }

    /// A queue never holds more values than it has room for, and has room for one at least.
    pub proof fn law_never_overfull(&self)
        requires
            self.wf(),
        ensures
            self@.items.len() <= self@.cap,
            0 < self@.cap <= usize::MAX / 4,
    {
        self.lemma_positions();
    }
}

impl<T> View for Bounded<T> {
    type V = BoundedView<T>;

    closed spec fn view(&self) -> BoundedView<T> {
        BoundedView {
            items: Seq::new(
                self.size() as nat,
                |k: int| self.buffer@[self.place(k)].value->0,
            ),
            cap: self.buffer@.len(),
            closed: self.marked(),
        }
    }
}

} // verus!
