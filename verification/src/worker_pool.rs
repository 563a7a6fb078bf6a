//! A pool of worker threads that actors are started on.

use core::time::Duration;

use vstd::prelude::*;

use crate::address::Addr;
use crate::supervisor::share;
use crate::util::channel::{channel, Channel, Receiver, Sender};
use crate::util::futures::Poll;

verus! {

/// How many workers a pool has, unless another number is asked for.
pub const DEFAULT_WORKERS: usize = 4;

/// How long a pool waits for its workers to end, in seconds, unless another time is asked for.
pub const DEFAULT_SHUTDOWN_TIMEOUT: u64 = 30;

/// The settings of a pool.
pub struct SupervisorBuilder {
    pub workers: usize,
    pub shutdown_timeout: Duration,
}

impl SupervisorBuilder {
    /// The settings of a pool of 4 workers that waits 30 seconds for them to end.
    pub fn new() -> (builder: Self)
        ensures
            builder.workers == DEFAULT_WORKERS,
            crate::runtime::duration_nanos(builder.shutdown_timeout) == DEFAULT_SHUTDOWN_TIMEOUT
                * 1_000_000_000,
    {
        SupervisorBuilder {
            workers: DEFAULT_WORKERS,
            shutdown_timeout: Duration::from_secs(DEFAULT_SHUTDOWN_TIMEOUT),
        }
    }

    /// Sets the number of workers.
    pub fn workers(self, workers: usize) -> (builder: Self)
        ensures
            builder == (SupervisorBuilder { workers, ..self }),
    {
        SupervisorBuilder { workers, ..self }
    }

    /// Sets how long the pool waits for its workers to end.
    pub fn shutdown_timeout(self, dur: Duration) -> (builder: Self)
        ensures
            builder == (SupervisorBuilder { shutdown_timeout: dur, ..self }),
    {
        SupervisorBuilder { shutdown_timeout: dur, ..self }
    }

    /// The pool, the channel for its jobs, on which one job for each worker can be on flight, and
    /// the ends of the channel, of which each worker gets one.
    pub fn build<J, H, W>(self) -> (built: (Supervisor<H>, Channel<J, W>, Vec<Receiver>))
        requires
            0 < self.workers <= usize::MAX / 2,
        ensures
            built.0.join_handles@.len() == 0,
            built.0.shutdown_timeout == self.shutdown_timeout,
            built.1.wf(),
            built.1@.cap == self.workers,
            built.1@.queue.items == Seq::<J>::empty(),
            !built.1@.queue.closed,
            built.0.tx.channel() == built.1@.id,
            built.1@.senders == 1,
            built.1@.receivers == self.workers,
            built.2@.len() == self.workers,
            forall|i: int|
                0 <= i < self.workers ==> (#[trigger] built.2@[i]).wf() && built.2@[i]@ is None
                    && built.2@[i].channel() == built.1@.id,
    {
        let (channel, tx, rx) = channel(self.workers);
        let mut channel = channel;
        let mut woken: Vec<W> = Vec::new();
        let receivers = share(&mut channel, rx, self.workers, &mut woken);
        let supervisor = Supervisor {
            join_handles: Vec::new(),
            tx,
            shutdown_timeout: self.shutdown_timeout,
        };
        (supervisor, channel, receivers)
    }
}

/// A pool of worker threads, of which `H` are the handles.
pub struct Supervisor<H> {
    pub join_handles: Vec<H>,
    pub tx: Sender,
    pub shutdown_timeout: Duration,
}

/// What is to be done to stop a pool.
#[derive(Debug, PartialEq, Eq)]
pub enum Stop<H> {
    /// Wait for the workers with these handles to end, but no longer than this.
    Join(Vec<H>, Duration),
    /// Nothing: this is the result.
    Return(bool),
}

/// What came of the wait for the workers.
#[derive(Clone, Copy, Debug, PartialEq, Eq, Structural)]
pub enum Joined {
    /// All of them have ended.
    Ended,
    /// The time is up.
    TimedOut,
}

impl<H> Supervisor<H> {
    /// The settings of a pool.
    pub fn builder() -> (builder: SupervisorBuilder)
        ensures
            builder.workers == DEFAULT_WORKERS,
            crate::runtime::duration_nanos(builder.shutdown_timeout) == DEFAULT_SHUTDOWN_TIMEOUT
                * 1_000_000_000,
    {
        SupervisorBuilder::new()
    }

    /// Adds a worker that was started.
    pub fn add_worker(&mut self, handle: H)
        ensures
            final(self).join_handles@ == old(self).join_handles@.push(handle),
            final(self).tx == old(self).tx,
            final(self).shutdown_timeout == old(self).shutdown_timeout,
    {
        self.join_handles.push(handle);
    }

    /// Closes the channel for jobs. If it was open and there are workers, they are to be waited
    /// for.
    pub fn stop<J, W>(&mut self, channel: &mut Channel<J, W>, woken: &mut Vec<W>) -> (stop: Stop<H>)
        requires
            old(channel).wf(),
            old(self).tx.channel() == old(channel)@.id,
        ensures
            final(channel).wf(),
            final(channel)@ == old(channel)@.close(),
            final(woken)@ == old(woken)@ + old(channel)@.close_wakers(),
            final(self).tx == old(self).tx,
            final(self).shutdown_timeout == old(self).shutdown_timeout,
            match stop {
                Stop::Join(handles, timeout) => {
                    &&& !old(channel)@.queue.closed
                    &&& old(self).join_handles@.len() > 0
                    &&& handles@ == old(self).join_handles@
                    &&& timeout == old(self).shutdown_timeout
                    &&& final(self).join_handles@.len() == 0
                },
                Stop::Return(stopped) => {
                    &&& !stopped
                    &&& old(channel)@.queue.closed || old(self).join_handles@.len() == 0
                    &&& final(self).join_handles@ == old(self).join_handles@
                },
            },
    {
        if self.tx.close(channel, woken) {
            if self.join_handles.len() == 0 {
                Stop::Return(false)
            } else {
                let mut handles: Vec<H> = Vec::new();
                core::mem::swap(&mut handles, &mut self.join_handles);
                Stop::Join(handles, self.shutdown_timeout)
            }
        } else {
            Stop::Return(false)
        }
    }

    /// Whether the pool stopped in time.
    pub fn stopped(joined: Joined) -> (stopped: bool)
        ensures
            stopped == (joined is Ended),
    {
        match joined {
            Joined::Ended => true,
            Joined::TimedOut => false,
        }
    }

    /// The channel for `num` instances of an actor, on which `size_hint` messages for each can be
    /// on flight, the address for all of them, and the ends of the channel, of which each instance
    /// gets one.
    pub fn start<T, W>(&self, size_hint: usize, num: usize) -> (started: (
        Channel<T, W>,
        Addr,
        Vec<Receiver>,
    ))
        requires
            0 < num <= usize::MAX / 2,
            0 < size_hint,
            size_hint * num <= usize::MAX,
        ensures
            started.0.wf(),
            started.0@.cap == size_hint * num,
            started.0@.queue.items == Seq::<T>::empty(),
            !started.0@.queue.closed,
            started.1.channel() == started.0@.id,
            started.0@.senders == 1,
            started.0@.receivers == num,
            started.2@.len() == num,
            forall|i: int|
                0 <= i < num ==> (#[trigger] started.2@[i]).wf() && started.2@[i]@ is None
                    && started.2@[i].channel() == started.0@.id,
    {
        proof {
            assert(size_hint * num > 0) by (nonlinear_arith)
                requires
                    size_hint > 0,
                    num > 0,
            ;
        }
        let (channel, tx, rx) = channel(size_hint * num);
        let mut channel = channel;
        let mut woken: Vec<W> = Vec::new();
        let receivers = share(&mut channel, rx, num, &mut woken);
        (channel, Addr::new(tx), receivers)
    }
}

/// What a worker does next.
#[derive(Debug, PartialEq, Eq)]
pub enum Work<J> {
    /// Start the job, and look for another one at once.
    Spawn(J),
    /// The poll is over.
    Return(Poll<()>),
}

/// What follows a poll of the channel for jobs: a worker ends with the channel.
pub fn poll_worker<J>(job: Poll<Option<J>>) -> (work: Work<J>)
    ensures
        work == (match job {
            Poll::Ready(Some(job)) => Work::Spawn(job),
            Poll::Ready(None) => Work::Return(Poll::Ready(())),
            Poll::Pending => Work::Return(Poll::Pending),
        }),
{
    match job {
        Poll::Ready(Some(job)) => Work::Spawn(job),
        Poll::Ready(None) => Work::Return(Poll::Ready(())),
        Poll::Pending => Work::Return(Poll::Pending),
    }
}

} // verus!
