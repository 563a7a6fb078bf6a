//! A queue without a bound.

use std::collections::VecDeque;

use vstd::prelude::*;

use crate::util::bounded::{TryRecvError, TrySendError};

verus! {

/// A queue for any number of values, which can be closed.
pub struct Unbounded<T> {
    items: VecDeque<T>,
    closed: bool,
}

/// What a queue is: its values, the oldest first, and whether it is closed.
pub ghost struct UnboundedView<T> {
    pub items: Seq<T>,
    pub closed: bool,
}

impl<T> View for Unbounded<T> {
    type V = UnboundedView<T>;

    closed spec fn view(&self) -> UnboundedView<T> {
        UnboundedView { items: self.items@, closed: self.closed }
    }
}

impl<T> Unbounded<T> {
    /// An empty queue.
    pub fn new() -> (queue: Unbounded<T>)
        ensures
            queue@ == (UnboundedView { items: Seq::<T>::empty(), closed: false }),
    {
        Unbounded { items: VecDeque::new(), closed: false }
    }

    /// Puts a value at the end of the queue.
    pub fn push(&mut self, value: T) -> (result: Result<(), TrySendError<T>>)
        ensures
            old(self)@.closed ==> {
                &&& result == Err::<(), TrySendError<T>>(TrySendError::Closed(value))
                &&& final(self)@ == old(self)@
            },
            !old(self)@.closed ==> {
                &&& result == Ok::<(), TrySendError<T>>(())
                &&& final(self)@ == (UnboundedView {
                    items: old(self)@.items.push(value),
                    ..old(self)@
                })
            },
    {
        if self.closed {
            Err(TrySendError::Closed(value))
        } else {
            self.items.push_back(value);
            Ok(())
        }
    }

    /// Takes the value at the front of the queue.
    pub fn pop(&mut self) -> (result: Result<T, TryRecvError>)
        ensures
            old(self)@.items.len() == 0 ==> {
                &&& result == Err::<T, TryRecvError>(
                    if old(self)@.closed {
                        TryRecvError::Closed
                    } else {
                        TryRecvError::Empty
                    },
                )
                &&& final(self)@ == old(self)@
            },
            old(self)@.items.len() > 0 ==> {
                &&& result == Ok::<T, TryRecvError>(old(self)@.items[0])
                &&& final(self)@ == (UnboundedView {
                    items: old(self)@.items.drop_first(),
                    ..old(self)@
                })
            },
    {
        match self.items.pop_front() {
            Some(value) => {
                assert(self@.items =~= old(self)@.items.drop_first());
                Ok(value)
            },
            None => {
                if self.closed {
                    Err(TryRecvError::Closed)
                } else {
                    Err(TryRecvError::Empty)
                }
            },
        }
    }

    /// Closes the queue. Returns whether it was open.
    pub fn close(&mut self) -> (closed: bool)
        ensures
            closed == !old(self)@.closed,
            final(self)@ == (UnboundedView { closed: true, ..old(self)@ }),
    {
        let closed: bool = !self.closed;
        self.closed = true;
        closed
    }

    /// Whether the queue is closed.
    pub fn is_closed(&self) -> (closed: bool)
        ensures
            closed == self@.closed,
    {
        self.closed
    }
}

} // verus!
