//! The outcome of a poll.

use vstd::prelude::*;

verus! {

/// Whether a value is available, or the current task was scheduled to be woken for it.
#[derive(Debug, PartialEq, Eq)]
pub enum Poll<T> {
    Ready(T),
    Pending,
}

impl<T> Poll<T> {
    /// Whether a value is available.
    pub fn is_ready(&self) -> (b: bool)
        ensures
            b == self is Ready,
    {
        match self {
            Poll::Ready(_) => true,
            Poll::Pending => false,
        }
    }
}

} // verus!
