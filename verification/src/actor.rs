//! What an actor is to its context.

use vstd::prelude::*;

use crate::address::Addr;
use crate::util::channel::{channel, Channel, Receiver};


verus! {

/// The capacity of an actor's channel, unless the actor asks for another one.
pub const CHANNEL_CAP: usize = 256;

/// A stateful actor.
pub trait Actor: Sized {
    /// capacity of the actor's channel. Limit the max count of on flight messages.
    ///
    /// Default to `256`.
    fn size_hint() -> (cap: usize)
        default_ensures
            cap == CHANNEL_CAP,
    {
        CHANNEL_CAP
    }
}

/// The channel for a new actor, on which `size_hint` messages can be on flight, its address, and
/// the end of the channel that its context receives from.
pub fn create<T, W>(size_hint: usize) -> (created: (Channel<T, W>, Addr, Receiver))
    requires
        0 < size_hint,
    ensures
        created.0.wf(),
        created.0@.cap == size_hint,
        created.0@.in_queue == 0,
        created.0@.queue.items == Seq::<T>::empty(),
        !created.0@.queue.closed,
        created.1.channel() == created.0@.id,
        created.2.channel() == created.0@.id,
        created.0@.senders == 1,
        created.0@.receivers == 1,
        created.2.wf(),
        created.2@ is None,
{
    let (channel, tx, rx) = channel(size_hint);
    (channel, Addr::new(tx), rx)
}

/// Whether an actor runs, or how it is to stop.
#[derive(Clone, Copy, Debug, PartialEq, Eq, Structural)]
pub enum ActorState {
    Running,
    Stop,
    StopGraceful,
}

} // verus!
