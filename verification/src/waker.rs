//! How a task of an actor is woken.

use std::collections::VecDeque;
use std::sync::Arc;

use spin::mutex::{Mutex, MutexGuard};
use spin::relax::Spin;
use vstd::prelude::*;

verus! {

/// `spin::relax::Spin`: how a thread waits for a lock, by spinning.
#[verifier::external_type_specification]
#[verifier::external_body]
pub struct ExSpin(Spin);

/// `spin::mutex::Mutex`: a value behind a lock.
#[verifier::external_type_specification]
#[verifier::external_body]
#[verifier::reject_recursive_types(T)]
#[verifier::reject_recursive_types(R)]
pub struct ExMutex<T: ?Sized, R>(Mutex<T, R>);

/// `spin::mutex::MutexGuard`: access to the value behind a lock that is held.
#[verifier::external_type_specification]
#[verifier::external_body]
#[verifier::reject_recursive_types(T)]
pub struct ExMutexGuard<'a, T: 'a + ?Sized>(MutexGuard<'a, T>);

/// The indices behind the lock, while it is held.
pub uninterp spec fn guarded(guard: MutexGuard<VecDeque<usize>>) -> Seq<usize>;

/// `Mutex::new`: a lock around the queue. What is behind it changes from then on with everyone who
/// takes the lock, so nothing is claimed of it.
#[verifier::external_body]
fn new_lock(queue: VecDeque<usize>) -> Mutex<VecDeque<usize>> {
    Mutex::new(queue)
}

/// `Mutex::lock`: waits for the lock, which no function of this module does while it holds it. What
/// is behind it then depends on those who held it before.
#[verifier::external_body]
fn lock(mutex: &Mutex<VecDeque<usize>>) -> MutexGuard<'_, VecDeque<usize>> {
    mutex.lock()
}

/// `Mutex::try_lock`: the lock, if nobody holds it. What is behind it then depends on those who
/// held it before.
#[verifier::external_body]
fn try_lock(mutex: &Mutex<VecDeque<usize>>) -> Option<MutexGuard<'_, VecDeque<usize>>> {
    mutex.try_lock()
}

/// `MutexGuard::deref_mut`: the queue behind the lock, to change it in place.
#[verifier::external_body]
fn access<'a>(guard: &'a mut MutexGuard<'_, VecDeque<usize>>) -> (queue: &'a mut VecDeque<usize>)
    ensures
        queue@ == guarded(*old(guard)),
        guarded(*final(guard)) == final(queue)@,
{
    &mut **guard
}

/// `drop` of a `MutexGuard`: the lock is given back, with the queue as it is then. What others do
/// with it from then on is not known.
#[verifier::external_body]
fn unlock(guard: MutexGuard<'_, VecDeque<usize>>) {
    drop(guard)
}

/// `Arc::clone`: one more pointer to the same lock.
#[verifier::external_body]
fn share(lock: &Arc<Mutex<VecDeque<usize>>>) -> (same: Arc<Mutex<VecDeque<usize>>>)
    ensures
        same == *lock,
{
    Arc::clone(lock)
}

/// The indices of the tasks that were woken, the first one first. Clones share them.
pub struct WakeQueue(Arc<Mutex<VecDeque<usize>>>);

impl Clone for WakeQueue {
    fn clone(&self) -> (same: Self)
        ensures
            same == *self,
    {
        WakeQueue(share(&self.0))
    }
}

/// The index that is taken from the queue behind a lock, which may not have been had.
pub open spec fn front(guard: Option<MutexGuard<VecDeque<usize>>>) -> Option<usize> {
    match guard {
        Some(guard) if guarded(guard).len() > 0 => Some(guarded(guard)[0]),
        _ => None,
    }
}

/// The queue is the same but for `idx` at its end.
pub open spec fn pushed(
    before: MutexGuard<VecDeque<usize>>,
    after: MutexGuard<VecDeque<usize>>,
    idx: usize,
) -> bool {
    guarded(after) == guarded(before).push(idx)
}

/// The queue is the same but for the index at its front, if there was one.
pub open spec fn popped(
    before: MutexGuard<VecDeque<usize>>,
    after: MutexGuard<VecDeque<usize>>,
) -> bool {
    guarded(after) == (if guarded(before).len() > 0 {
        guarded(before).drop_first()
    } else {
        guarded(before)
    })
}

/// A lock that is held can be given back with the queue like this.
pub closed spec fn given_back(guard: MutexGuard<VecDeque<usize>>) -> bool {
    call_ensures(unlock, (guard,), ())
}

/// The lock, if it was had, is given back without the index at the front of the queue.
pub open spec fn given_back_popped(guard: Option<MutexGuard<VecDeque<usize>>>) -> bool {
    match guard {
        Some(before) => exists|after: MutexGuard<VecDeque<usize>>|
            popped(before, after) && #[trigger] given_back(after),
        None => true,
    }
}

/// The index that is taken is the first one in the queue, if the lock was had and there is one.
pub proof fn law_front_is_the_first(guard: MutexGuard<VecDeque<usize>>)
    ensures
        front(None) is None,
        guarded(guard).len() == 0 ==> front(Some(guard)) is None,
        guarded(guard).len() > 0 ==> front(Some(guard)) == Some(guarded(guard)[0]),
{
}

/// An index goes to the end of the queue, behind those that are there, and the one at the front is
/// taken: all others keep their order.
pub proof fn law_woken_first_polled_first(
    before: MutexGuard<VecDeque<usize>>,
    after: MutexGuard<VecDeque<usize>>,
    idx: usize,
    i: int,
)
    ensures
        pushed(before, after, idx) ==> {
            &&& guarded(after).len() == guarded(before).len() + 1
            &&& guarded(after).last() == idx
            &&& 0 <= i < guarded(before).len() ==> guarded(after)[i] == guarded(before)[i]
        },
        popped(before, after) && guarded(before).len() > 0 ==> {
            &&& guarded(after).len() == guarded(before).len() - 1
            &&& 0 <= i < guarded(after).len() ==> guarded(after)[i] == guarded(before)[i + 1]
        },
        popped(before, after) && guarded(before).len() == 0 ==> guarded(after).len() == 0,
{
}

/// A lock that was had for an index is given back with the queue that is left.
pub proof fn law_lock_is_given_back(guard: MutexGuard<VecDeque<usize>>)
    requires
        given_back_popped(Some(guard)),
    ensures
        exists|after: MutexGuard<VecDeque<usize>>| #[trigger]
            given_back(after) && guarded(after) == (if guarded(guard).len() > 0 {
                guarded(guard).subrange(1, guarded(guard).len() as int)
            } else {
                Seq::empty()
            }),
{
    let after = choose|after: MutexGuard<VecDeque<usize>>|
        popped(guard, after) && #[trigger] given_back(after);
    assert(guarded(after) =~= (if guarded(guard).len() > 0 {
        guarded(guard).subrange(1, guarded(guard).len() as int)
    } else {
        Seq::empty()
    }));
}

/// What is given back is what the guard is dropped with.
proof fn lemma_given_back(guard: MutexGuard<VecDeque<usize>>)
    ensures
        given_back(guard) <==> call_ensures(unlock, (guard,), ()),
{
}

impl WakeQueue {
    /// An index that was put into the queue is its last one when the lock is given back, behind all
    /// that were there when the lock was had.
    pub proof fn law_enqueued_index_is_the_last(&self, idx: usize)
        requires
            self.took(idx),
        ensures
            exists|before: MutexGuard<VecDeque<usize>>, after: MutexGuard<VecDeque<usize>>|
                #[trigger] self.may_lock(before) && #[trigger] given_back(after) && guarded(after)
                    == guarded(before) + seq![idx],
    {
        let (before, after) = choose|
            before: MutexGuard<VecDeque<usize>>,
            after: MutexGuard<VecDeque<usize>>,
        | #[trigger]
            self.may_lock(before) && pushed(before, after, idx) && #[trigger] given_back(after);
        assert(guarded(after) =~= guarded(before) + seq![idx]);
        assert(self.may_lock(before) && given_back(after));
    }

    /// The lock that is taken is the one of this queue.
    proof fn lemma_own_lock(
        &self,
        guard: MutexGuard<VecDeque<usize>>,
        attempt: Option<MutexGuard<VecDeque<usize>>>,
    )
        ensures
            self.may_lock(guard) <==> call_ensures(lock, (&*self.0,), guard),
            self.may_give(attempt) <==> call_ensures(try_lock, (&*self.0,), attempt),
    {
    }

    /// A lock that was put around a queue with these indices was put around them alone.
    proof fn lemma_made_of(&self, indices: Seq<usize>)
        requires
            self.made_of(indices),
        ensures
            exists|queue: VecDeque<usize>| #[trigger]
                call_ensures(new_lock, (queue,), *self.0) && queue@ == indices,
    {
    }

    /// The lock is one that was put around a queue with these indices.
    pub closed spec fn made_of(&self, indices: Seq<usize>) -> bool {
        exists|queue: VecDeque<usize>|
            queue@ == indices && #[trigger] call_ensures(new_lock, (queue,), *self.0)
    }

    /// An attempt to take the lock, without waiting for it, can come out like this.
    pub closed spec fn may_give(&self, guard: Option<MutexGuard<VecDeque<usize>>>) -> bool {
        call_ensures(try_lock, (&*self.0,), guard)
    }

    /// A wait for the lock can come out like this.
    pub closed spec fn may_lock(&self, guard: MutexGuard<VecDeque<usize>>) -> bool {
        call_ensures(lock, (&*self.0,), guard)
    }

    /// An index was put at the end of the queue: the lock was had, and given back with the queue
    /// that held nothing new but the index.
    pub open spec fn took(&self, idx: usize) -> bool {
        exists|before: MutexGuard<VecDeque<usize>>, after: MutexGuard<VecDeque<usize>>| #[trigger]
            self.may_lock(before) && pushed(before, after, idx) && #[trigger] given_back(after)
    }

    /// A queue for one actor, which nobody has put an index into.
    pub fn new() -> (queue: WakeQueue)
        ensures
            queue.made_of(Seq::<usize>::empty()),
    {
        let empty: VecDeque<usize> = VecDeque::new();
        let ghost indices = empty;
        let mutex = new_lock(empty);
        let queue = WakeQueue(Arc::new(mutex));
        assert(indices@ =~= Seq::<usize>::empty());
        assert(call_ensures(new_lock, (indices,), *queue.0));
        queue
    }

    /// Puts an index at the end of the queue behind a lock that is held.
    pub fn push(guard: &mut MutexGuard<'_, VecDeque<usize>>, idx: usize)
        ensures
            guarded(*final(guard)) == guarded(*old(guard)).push(idx),
    {
        access(guard).push_back(idx);
    }

    /// Takes the index at the front of the queue behind a lock that is held.
    pub fn pop(guard: &mut MutexGuard<'_, VecDeque<usize>>) -> (idx: Option<usize>)
        ensures
            match idx {
                Some(idx) => {
                    &&& guarded(*old(guard)).len() > 0
                    &&& idx == guarded(*old(guard))[0]
                    &&& guarded(*final(guard)) == guarded(*old(guard)).drop_first()
                },
                None => {
                    &&& guarded(*old(guard)).len() == 0
                    &&& guarded(*final(guard)) == guarded(*old(guard))
                },
            },
    {
        let idx = access(guard).pop_front();
        assert(idx is Some ==> guarded(*guard) =~= guarded(*old(guard)).drop_first());
        idx
    }

    /// Waits for the lock and puts an index at the end of the queue.
    pub fn enqueue(&self, idx: usize)
        ensures
            self.took(idx),
    {
        let mut guard = lock(&self.0);
        let ghost before = guard;
        assert(self.may_lock(before));
        Self::push(&mut guard, idx);
        let ghost after = guard;
        unlock(guard);
        assert(pushed(before, after, idx) && given_back(after));
    }

    /// Takes the index at the front of the queue, if there is one and nobody holds the lock.
    ///
    /// Whoever holds the lock is about to wake the actor, which looks again then.
    pub fn try_pop(&self) -> (idx: Option<usize>)
        ensures
            exists|guard: Option<MutexGuard<VecDeque<usize>>>|
                #[trigger] self.may_give(guard) && idx == front(guard) && given_back_popped(guard),
    {
        let guard = try_lock(&self.0);
        assert(self.may_give(guard));
        Self::pop_front(guard)
    }

    /// Takes the index at the front of the queue, if the lock was had and there is one, and gives
    /// the lock back.
    pub fn pop_front(guard: Option<MutexGuard<'_, VecDeque<usize>>>) -> (idx: Option<usize>)
        ensures
            idx == front(guard),
            given_back_popped(guard),
    {
        match guard {
            Some(before) => {
                let mut guard = before;
                let idx = Self::pop(&mut guard);
                let ghost after = guard;
                unlock(guard);
                assert(popped(before, after) && given_back(after));
                idx
            },
            None => None,
        }
    }
}

/// The waker of one task of an actor: it tells the actor which task to poll.
pub struct ActorWaker<W> {
    queue: WakeQueue,
    idx: usize,
    waker: W,
}

impl<W> ActorWaker<W> {
    /// The queue that the index of the task goes into.
    pub closed spec fn queue(&self) -> WakeQueue {
        self.queue
    }

    /// The index of the task.
    pub closed spec fn idx(&self) -> usize {
        self.idx
    }

    /// The waker of the actor.
    pub closed spec fn waker(&self) -> W {
        self.waker
    }

    /// The waker of the task `idx` of the actor that `waker` wakes, which tells it through the queue.
    pub fn new(queued: &WakeQueue, idx: usize, waker: W) -> (actor_waker: Self)
        ensures
            actor_waker.queue() == *queued,
            actor_waker.idx() == idx,
            actor_waker.waker() == waker,
    {
        ActorWaker { queue: queued.clone(), idx, waker }
    }

    /// Puts the index of the task into the queue. Returns the waker of the actor, to be called
    /// then.
    pub fn wake(self) -> (waker: W)
        ensures
            self.queue().took(self.idx()),
            waker == self.waker(),
    {
        self.queue.enqueue(self.idx);
        self.waker
    }

    /// Puts the index of the task into the queue. Returns the waker of the actor, to be called
    /// then.
    pub fn wake_by_ref(&self) -> (waker: &W)
        ensures
            self.queue().took(self.idx()),
            *waker == self.waker(),
    {
        self.queue.enqueue(self.idx);
        &self.waker
    }
}

} // verus!
