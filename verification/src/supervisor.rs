//! Several instances of one actor on several arbiters.

use vstd::prelude::*;

use crate::address::Addr;
use crate::context_future::ContextFuture;
use crate::util::channel::{channel, Channel, Receiver};
use crate::util::futures::Poll;

verus! {

/// `count` receivers of a channel, in place of its only one.
pub(crate) fn share<T, W>(channel: &mut Channel<T, W>, rx: Receiver, count: usize, woken: &mut Vec<W>) -> (receivers:
    Vec<Receiver>)
    requires
        old(channel).wf(),
        old(channel)@.receivers == 1,
        rx.channel() == old(channel)@.id,
        rx.wf(),
        rx@ is None,
        0 < count <= usize::MAX / 2,
    ensures
        final(channel).wf(),
        final(channel)@ == (crate::util::channel::ChannelView {
            receivers: count as int,
            ..old(channel)@
        }),
        receivers@.len() == count,
        forall|i: int|
            0 <= i < count ==> (#[trigger] receivers@[i]).wf() && receivers@[i]@ is None
                && receivers@[i].channel() == old(channel)@.id,
        final(woken)@ == old(woken)@,
{
    let mut receivers: Vec<Receiver> = Vec::with_capacity(count);
    for i in 0..count
        invariant
            channel.wf(),
            channel@ == (crate::util::channel::ChannelView {
                receivers: 1 + i,
                ..old(channel)@
            }),
            receivers@.len() == i,
            count <= usize::MAX / 2,
            rx.channel() == channel@.id,
            forall|j: int|
                0 <= j < i ==> (#[trigger] receivers@[j]).wf() && receivers@[j]@ is None
                    && receivers@[j].channel() == channel@.id,
            woken@ == old(woken)@,
    {
        receivers.push(rx.clone(channel));
    }
    rx.drop(channel, woken);
    assert(woken@ =~= old(woken)@);
    receivers
}

/// An instance of an actor, to be started.
pub struct Placement {
    /// The arbiter that it starts in.
    pub arbiter: usize,
    /// Its end of the channel that all instances share.
    pub rx: Receiver,
}

/// Supervisor can start multiple instance of same actor on multiple arbiters.
/// Instances of same actor share the same `Addr` and steal work from a mpmc bounded channel.
///
/// It also guards the actor's drop and partially recover them from panic.
/// (Due to no task level panic catch. Cache futures/streams in `Context` will be cleared after
/// recovery)
#[derive(Clone)]
pub struct Supervisor<A> {
    pub arb: Vec<A>,
}

/// The arbiter for the instance that is the `n`th one, of so many arbiters.
pub open spec fn arbiter_of(n: usize, arbiters: int) -> int {
    n as int % arbiters
}

impl<A> Supervisor<A> {
    /// Construct a new supervisor with the given arbiters. Every one runs on it's own thread and
    /// can have multiple actors run on it.
    pub fn new(arb: Vec<A>) -> (supervisor: Self)
        ensures
            supervisor.arb == arb,
    {
        Supervisor { arb }
    }

    /// Start multiple actor instance with `Supervisor`, using a simple round robin schedule. `next`
    /// counts the instances that were started, also by other handles of the supervisor. The
    /// instances share a channel on which `size_hint` messages for each can be on flight.
    pub fn start_in_arbiter<T, W>(&self, next: &mut usize, size_hint: usize, count: usize) -> (started: (
        Channel<T, W>,
        Addr,
        Vec<Placement>,
    ))
        requires
            self.arb@.len() > 0,
            0 < count <= usize::MAX / 2,
            0 < size_hint,
            size_hint * count <= usize::MAX,
        ensures
            started.0.wf(),
            started.0@.cap == size_hint * count,
            started.0@.queue.items == Seq::<T>::empty(),
            !started.0@.queue.closed,
            started.1.channel() == started.0@.id,
            started.0@.senders == 1,
            started.0@.receivers == count,
            started.2@.len() == count,
            forall|i: int|
                0 <= i < count ==> (#[trigger] started.2@[i]).arbiter == arbiter_of(
                    old(next).wrapping_add(i as usize),
                    self.arb@.len() as int,
                ),
            forall|i: int|
                0 <= i < count ==> (#[trigger] started.2@[i]).rx.wf() && started.2@[i].rx@ is None
                    && started.2@[i].rx.channel() == started.0@.id,
            *final(next) == old(next).wrapping_add(count),
    {
        proof {
            assert(size_hint * count > 0) by (nonlinear_arith)
                requires
                    size_hint > 0,
                    count > 0,
            ;
        }
        let (channel, tx, rx) = channel(size_hint * count);
        let mut channel = channel;
        let mut woken: Vec<W> = Vec::new();
        let mut left = share(&mut channel, rx, count, &mut woken);
        let mut placements: Vec<Placement> = Vec::with_capacity(count);
        for i in 0..count
            invariant
                self.arb@.len() > 0,
                left@.len() == count - i,
                forall|j: int|
                    0 <= j < count - i ==> (#[trigger] left@[j]).wf() && left@[j]@ is None
                        && left@[j].channel() == channel@.id,
                placements@.len() == i,
                forall|j: int|
                    0 <= j < i ==> (#[trigger] placements@[j]).arbiter == arbiter_of(
                        old(next).wrapping_add(j as usize),
                        self.arb@.len() as int,
                    ),
                forall|j: int|
                    0 <= j < i ==> (#[trigger] placements@[j]).rx.wf() && placements@[j].rx@ is None
                        && placements@[j].rx.channel() == channel@.id,
                *next == old(next).wrapping_add(i),
        {
            let arbiter: usize = *next % self.arb.len();
            *next = next.wrapping_add(1);
            match left.pop() {
                Some(rx) => {
                    placements.push(Placement { arbiter, rx });
                },
                None => {
                    assert(false);
                },
            }
        }
        (channel, Addr::new(tx), placements)
    }

    /// The first arbiter comes first, and after each comes the next one, until the last. Every
    /// instance has an arbiter that there is.
    pub proof fn law_arbiters_take_turns(n: usize, arbiters: usize)
        requires
            0 < arbiters,
        ensures
            arbiter_of(0, arbiters as int) == 0,
            0 <= arbiter_of(n, arbiters as int) < arbiters,
            n < usize::MAX && arbiter_of(n, arbiters as int) + 1 < arbiters ==> arbiter_of(
                (n + 1) as usize,
                arbiters as int,
            ) == arbiter_of(n, arbiters as int) + 1,
            n < usize::MAX && arbiter_of(n, arbiters as int) + 1 == arbiters ==> arbiter_of(
                (n + 1) as usize,
                arbiters as int,
            ) == 0,
    {
        let a = n as int;
        let m = arbiters as int;
        vstd::arithmetic::div_mod::lemma_mod_bound(a, m);
        vstd::arithmetic::div_mod::lemma_small_mod(0nat, arbiters as nat);
        vstd::arithmetic::div_mod::lemma_fundamental_div_mod(a, m);
        let q = a / m;
        let r = a % m;
        if r + 1 < m {
            vstd::arithmetic::div_mod::lemma_fundamental_div_mod_converse(a + 1, m, q, r + 1);
        } else {
            assert(a + 1 == (q + 1) * m + 0) by (nonlinear_arith)
                requires
                    a == m * q + r,
                    r + 1 == m,
            ;
            vstd::arithmetic::div_mod::lemma_fundamental_div_mod_converse(a + 1, m, q + 1, 0);
        }
    }

    /// After as many instances as there are arbiters the schedule starts over, as long as the count
    /// of instances does not wrap around.
    pub proof fn law_round_robin_starts_over(next: usize, arbiters: usize)
        requires
            0 < arbiters,
            next + arbiters <= usize::MAX,
        ensures
            arbiter_of(next.wrapping_add(arbiters), arbiters as int) == arbiter_of(
                next,
                arbiters as int,
            ),
    {
        vstd::arithmetic::div_mod::lemma_mod_add_multiples_vanish(next as int, arbiters as int);
    }

    /// As many instances in a row as there are arbiters start in a different arbiter each, as long
    /// as the count of instances does not wrap around.
    pub proof fn law_round_robin(next: usize, arbiters: usize, i: usize, j: usize)
        requires
            0 < arbiters,
            i < j < arbiters,
            next + j <= usize::MAX,
        ensures
            arbiter_of(next.wrapping_add(i), arbiters as int) != arbiter_of(
                next.wrapping_add(j),
                arbiters as int,
            ),
            0 <= arbiter_of(next.wrapping_add(i), arbiters as int) < arbiters,
    {
        let a = (next + i) as int;
        let b = (next + j) as int;
        let n = arbiters as int;
        assert(a % n != b % n) by (nonlinear_arith)
            requires
                0 < b - a < n,
                0 < n,
        {
            if a % n == b % n {
                assert(b - a == n * (b / n - a / n)) by (nonlinear_arith)
                    requires
                        a % n == b % n,
                        a == n * (a / n) + a % n,
                        b == n * (b / n) + b % n,
                ;
                let q = b / n - a / n;
                assert(n * q <= 0 || n * q >= n) by (nonlinear_arith)
                    requires
                        n > 0,
                ;
            }
        }
        vstd::arithmetic::div_mod::lemma_mod_bound(a, n);
    }
}

/// What follows a poll of a context that a supervisor guards.
#[derive(Debug, PartialEq, Eq)]
pub enum Supervised {
    /// The poll is over.
    Return(Poll<()>),
    /// The context is to be polled again.
    PollAgain,
}

/// What follows a poll with this outcome of a context that a supervisor guards: one that ended
/// while its actor is running goes on.
pub fn supervise<T, F, S, N>(fut: &ContextFuture<T, F, S, N>, poll: Poll<()>) -> (next: Supervised)
    ensures
        next == after(fut@, poll),
{
    if poll.is_ready() && fut.is_running() {
        Supervised::PollAgain
    } else {
        Supervised::Return(poll)
    }
}

/// A poll that is pending is over, and so is one of a context that ended with its actor. A context
/// whose actor is running is polled again when it ended, and spawned again when it is dropped.
pub proof fn law_running_actor_goes_on<T, F, S, N>(
    view: crate::context_future::ContextView<T, F, S, N>,
)
    ensures
        after(view, Poll::Pending) == Supervised::Return(Poll::Pending),
        view.actor is Running ==> after(view, Poll::Ready(())) is PollAgain,
        view.actor !is Running ==> after(view, Poll::Ready(())) == Supervised::Return(
            Poll::Ready(()),
        ),
        respawns(view) <==> view.actor is Running,
{
}

/// A context that is finished stays so under a supervisor, whatever order stopped it: it is not
/// polled again, and not spawned again when it is dropped.
pub proof fn law_finished_context_stays_so<T, F, S, N, M>(
    view: crate::context_future::ContextView<T, F, S, N>,
    event: crate::context_future::Event<M, T, N>,
)
    requires
        view.wf(),
        view.expects(event),
        view.resumed(event).1 == crate::context_future::Action::<M>::Return(Poll::Ready(())),
    ensures
        after(view.resumed(event).0, Poll::Ready(())) == Supervised::Return(Poll::Ready(())),
        !respawns(view.resumed(event).0),
{
    view.law_finished_after_on_stop(event);
}

/// What follows a poll with this outcome of a context that a supervisor guards.
pub open spec fn after<T, F, S, N>(
    view: crate::context_future::ContextView<T, F, S, N>,
    poll: Poll<()>,
) -> Supervised {
    if poll is Ready && view.actor is Running {
        Supervised::PollAgain
    } else {
        Supervised::Return(poll)
    }
}

/// Whether a context that a supervisor guards is spawned again when it is dropped.
pub open spec fn respawns<T, F, S, N>(
    view: crate::context_future::ContextView<T, F, S, N>,
) -> bool {
    view.actor is Running
}

/// A context that a supervisor guards is dropped. If its actor is running its tasks, delayed
/// messages and streams are dropped, and the context is to be spawned again. Returns whether it is.
pub fn recover<T, F, S, N>(fut: &mut ContextFuture<T, F, S, N>) -> (respawn: bool)
    requires
        old(fut).wf(),
    ensures
        final(fut).wf(),
        respawn == respawns(old(fut)@),
        !respawn ==> final(fut)@ == old(fut)@,
        respawn ==> {
            &&& final(fut)@ == (crate::context_future::ContextView {
                exclusive: None,
                tasks: final(fut)@.tasks,
                futures: Seq::empty(),
                streams: Seq::empty(),
                at: crate::context_future::Step::Idle,
                ..old(fut)@
            })
            &&& final(fut)@.tasks.slots == Seq::<Option<T>>::empty()
            &&& final(fut)@.tasks.free == Seq::<usize>::empty()
        },
{
    if fut.is_running() {
        fut.clear_cache();
        true
    } else {
        false
    }
}

} // verus!
