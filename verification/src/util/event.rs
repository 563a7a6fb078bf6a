//! Notification of tasks that wait for something to happen.

use vstd::prelude::*;

use crate::util::futures::Poll;
use crate::util::slab::Slab;

verus! {

/// Where a listener stands.
pub enum State<W> {
    /// It was just created.
    Created,
    /// It has received a notification: `true` for one that was delivered on top of others.
    Notified(bool),
    /// A task is polling it, to be woken through `W`.
    Polling(W),
}

impl<W> State<W> {
    /// Whether this is the state of a listener that was notified.
    pub fn is_notified(&self) -> (b: bool)
        ensures
            b == self is Notified,
    {
        match self {
            State::Notified(_) => true,
            State::Created | State::Polling(_) => false,
        }
    }
}

/// An entry of the list: a listener and its neighbours.
struct Entry<W> {
    state: State<W>,
    prev: Option<usize>,
    next: Option<usize>,
}

/// What a list of listeners is: their keys in the order of registration, the state of each, and
/// how many of them, counted from the front, were notified.
pub ghost struct ListView<W> {
    pub keys: Seq<usize>,
    pub states: Seq<State<W>>,
    pub notified: int,
}

/// The wakers of the listeners `from..to`, in order.
pub open spec fn wakers<W>(states: Seq<State<W>>, from: int, to: int) -> Seq<W>
    decreases to - from,
{
    if from >= to {
        Seq::empty()
    } else {
        match states[to - 1] {
            State::Polling(w) => wakers(states, from, to - 1).push(w),
            _ => wakers(states, from, to - 1),
        }
    }
}

/// The wakers of a stretch of listeners are those of its first part, followed by those of the rest.
pub proof fn law_wakers_in_order<W>(states: Seq<State<W>>, from: int, mid: int, to: int)
    requires
        from <= mid <= to,
    ensures
        wakers(states, from, to) == wakers(states, from, mid) + wakers(states, mid, to),
    decreases to - mid,
{
    if mid < to {
        law_wakers_in_order(states, from, mid, to - 1);
    }
    assert(wakers(states, from, to) =~= wakers(states, from, mid) + wakers(states, mid, to));
}

/// A listener that a task polls has one waker, and any other one has none.
pub proof fn law_waker_of_one_listener<W>(states: Seq<State<W>>, i: int)
    ensures
        wakers(states, i, i) == Seq::<W>::empty(),
        wakers(states, i, i + 1) == (match states[i] {
            State::Polling(w) => seq![w],
            _ => Seq::empty(),
        }),
{
    reveal_with_fuel(wakers, 2);
    assert(wakers(states, i, i + 1) =~= (match states[i] {
        State::Polling(w) => seq![w],
        _ => Seq::empty(),
    }));
}

/// The wakers of a stretch of listeners are the wakers of those in it that a task polls: each of
/// them, and no others.
pub proof fn law_wakers_are_of_polled_listeners<W>(states: Seq<State<W>>, from: int, to: int)
    ensures
        forall|i: int, w: W|
            from <= i < to && #[trigger] states[i] == State::Polling(w) ==> #[trigger] wakers(
                states,
                from,
                to,
            ).contains(w),
        forall|k: int|
            0 <= k < wakers(states, from, to).len() ==> exists|i: int|
                from <= i < to && states[i] == State::Polling(
                    #[trigger] wakers(states, from, to)[k],
                ),
        from <= to ==> wakers(states, from, to).len() <= to - from,
    decreases to - from,
{
    if from < to {
        law_wakers_are_of_polled_listeners(states, from, to - 1);
        let less = wakers(states, from, to - 1);
        let all = wakers(states, from, to);
        assert forall|i: int, w: W| from <= i < to && #[trigger] states[i] == State::Polling(
            w,
        ) implies #[trigger] wakers(states, from, to).contains(w) by {
            if i < to - 1 {
                let k = less.index_of(w);
                assert(less.contains(w));
                assert(all[k] == w);
            } else {
                assert(all.last() == w);
            }
        }
        assert forall|k: int| 0 <= k < all.len() implies exists|i: int|
            from <= i < to && states[i] == State::Polling(#[trigger] wakers(states, from, to)[k]) by {
            if k < less.len() {
                assert(all[k] == less[k]);
                let i = choose|i: int| from <= i < to - 1 && states[i] == State::Polling(less[k]);
                assert(states[i] == State::Polling(all[k]));
            } else {
                assert(states[to - 1] == State::Polling(all[k]));
            }
        }
    }
}

impl<W> ListView<W> {
    /// Every listener has one state and one key, and the notified ones come first.
    pub open spec fn wf(self) -> bool {
        &&& self.keys.no_duplicates()
        &&& self.states.len() == self.keys.len()
        &&& 0 <= self.notified <= self.keys.len() <= usize::MAX
        &&& forall|i: int|
            0 <= i < self.states.len() ==> ((#[trigger] self.states[i]) is Notified <==> i
                < self.notified)
    }

    /// The place of the listener `key`.
    pub open spec fn at(self, key: usize) -> int {
        self.keys.index_of(key)
    }

    /// The list after a listener registered under `key`.
    pub open spec fn inserted(self, key: usize) -> ListView<W> {
        ListView {
            keys: self.keys.push(key),
            states: self.states.push(State::Created),
            notified: self.notified,
        }
    }

    /// The list without its listener `i`.
    pub open spec fn removed(self, i: int) -> ListView<W> {
        ListView {
            keys: self.keys.remove(i),
            states: self.states.remove(i),
            notified: if i < self.notified {
                self.notified - 1
            } else {
                self.notified
            },
        }
    }

    /// The list with another state for its listener `i`.
    pub open spec fn with_state(self, i: int, state: State<W>) -> ListView<W> {
        ListView { states: self.states.update(i, state), ..self }
    }

    /// The list after a poll of its listener `i`.
    pub open spec fn polled(self, i: int, waker: W, keep: bool) -> ListView<W> {
        match self.states[i] {
            State::Notified(_) => self.removed(i),
            State::Created => self.with_state(i, State::Polling(waker)),
            State::Polling(w) => self.with_state(
                i,
                State::Polling(
                    if keep {
                        w
                    } else {
                        waker
                    },
                ),
            ),
        }
    }

    /// The list after its first `to` listeners are notified.
    pub open spec fn notified_to(self, to: int, additional: bool) -> ListView<W> {
        if to <= self.notified {
            self
        } else {
            ListView {
                keys: self.keys,
                states: Seq::new(
                    self.states.len(),
                    |i: int|
                        if self.notified <= i < to {
                            State::Notified(additional)
                        } else {
                            self.states[i]
                        },
                ),
                notified: to,
            }
        }
    }

    /// The list after its listener `i` is given up: a notification that it had received and not
    /// picked up is passed on.
    pub open spec fn dropped(self, i: int) -> ListView<W> {
        let rest = self.removed(i);
        match self.states[i] {
            State::Notified(additional) => rest.notified_to(self.passed_to(i), additional),
            _ => rest,
        }
    }

    /// How many listeners are notified after the listener `i` is given up.
    pub open spec fn passed_to(self, i: int) -> int {
        let rest = self.removed(i);
        match self.states[i] {
            State::Notified(true) => rest.reach(rest.notified + 1),
            State::Notified(false) => rest.reach(1),
            _ => rest.notified,
        }
    }

    /// The wakers that are called when the listener `i` is given up.
    pub open spec fn passed_wakers(self, i: int) -> Seq<W> {
        let rest = self.removed(i);
        wakers(rest.states, rest.notified, self.passed_to(i))
    }

    /// The wakers that a notification of `n` listeners calls.
    pub open spec fn notify_wakers(self, n: int) -> Seq<W> {
        wakers(self.states, self.notified, self.reach(n))
    }

    /// The list after a notification of `n` listeners.
    pub open spec fn notify(self, n: int) -> ListView<W> {
        self.notified_to(self.reach(n), false)
    }

    /// The list with one more listener, which a task polls.
    pub open spec fn waiting(self, key: usize, waker: W) -> ListView<W> {
        ListView {
            keys: self.keys.push(key),
            states: self.states.push(State::Polling(waker)),
            notified: self.notified,
        }
    }

    /// The listener `key` was notified, and its task has not picked that up.
    pub open spec fn is_notified(self, key: usize) -> bool {
        self.states[self.at(key)] is Notified
    }

    /// Whether the list becomes `post` when a task goes on waiting: under the key that it has
    /// already, if it was not notified, and under a new one otherwise.
    pub open spec fn registers(
        self,
        before: Option<usize>,
        after: usize,
        waker: W,
        keep: bool,
        post: ListView<W>,
    ) -> bool {
        match before {
            Some(key) if !self.is_notified(key) => {
                &&& after == key
                &&& post == self.polled(self.at(key), waker, keep)
            },
            Some(key) => {
                let rest = self.removed(self.at(key));
                &&& !rest.keys.contains(after)
                &&& post == rest.waiting(after, waker)
            },
            None => {
                &&& !self.keys.contains(after)
                &&& post == self.waiting(after, waker)
            },
        }
    }

    /// The list without the listener of a task that picks up its notification, if it has one.
    pub open spec fn picked_up(self, before: Option<usize>) -> ListView<W> {
        match before {
            Some(key) => self.removed(self.at(key)),
            None => self,
        }
    }

    /// A notification that a listener had received and not picked up is not lost when the listener
    /// is given up: if there are others, one of them at least is notified then.
    pub proof fn law_notification_is_passed_on(self, i: int)
        requires
            self.wf(),
            0 <= i < self.notified,
            self.keys.len() > 1,
        ensures
            self.dropped(i).notified >= 1,
            self.dropped(i).keys == self.keys.remove(i),
    {
    }

    /// Listeners are notified in the order in which they registered: a listener is notified only
    /// when every one before it is.
    pub proof fn law_first_come_first_notified(self, n: int, i: int, j: int)
        requires
            self.wf(),
            0 <= i < j < self.keys.len(),
            self.notify(n).states[j] is Notified,
        ensures
            self.notify(n).states[i] is Notified,
    {
        self.lemma_notify(n);
        assert(self.notify(n).states[j] is Notified);
    }

    /// A notification wakes the tasks of the listeners that it reaches and no others, each once, in
    /// order.
    pub proof fn law_notify_wakes(self, n: int)
        requires
            self.wf(),
        ensures
            self.notify_wakers(n) == wakers(self.states, self.notified, self.notify(n).notified),
            self.notify(n).notify_wakers(n).len() == 0,
    {
        self.lemma_notify(n);
    }

    /// The notified listeners come first: a listener was notified exactly if its place is one of
    /// the first.
    pub proof fn law_notified_listeners_come_first(self, key: usize)
        requires
            self.wf(),
            self.keys.contains(key),
        ensures
            0 <= self.at(key) < self.keys.len(),
            self.keys[self.at(key)] == key,
            self.is_notified(key) <==> self.at(key) < self.notified,
    {
    }

    /// A notification of `n` listeners notifies the first ones, until `n` are notified or all are,
    /// counting those that were notified before. Those stay as they are, and so do all others.
    pub proof fn law_notify_reaches_the_first(self, n: int, i: int)
        requires
            self.wf(),
        ensures
            ({
                let post = self.notify(n);
                &&& post.keys == self.keys
                &&& post.notified >= self.notified
                &&& post.notified >= n || post.notified == self.keys.len()
                &&& post.notified == self.notified || post.notified <= n
                &&& post.states.len() == self.states.len()
                &&& 0 <= i < self.states.len() ==> {
                    &&& self.notified <= i < post.notified ==> post.states[i] == State::<W>::Notified(
                        false,
                    )
                    &&& !(self.notified <= i < post.notified) ==> post.states[i] == self.states[i]
                }
            }),
    {
    }

    /// Every task whose listener is notified is woken, and no other one.
    pub proof fn law_notified_tasks_are_woken(self, n: int)
        requires
            self.wf(),
        ensures
            forall|i: int, w: W|
                0 <= i < self.states.len() && #[trigger] self.states[i] == State::Polling(w)
                    && self.notify(n).states[i] is Notified ==> #[trigger] self.notify_wakers(
                    n,
                ).contains(w),
            forall|k: int|
                0 <= k < self.notify_wakers(n).len() ==> exists|i: int|
                    0 <= i < self.states.len() && self.states[i] == State::Polling(
                        #[trigger] self.notify_wakers(n)[k],
                    ) && self.notify(n).states[i] is Notified,
            self.notify_wakers(n) == wakers(self.states, self.notified, self.notify(n).notified),
    {
        law_wakers_are_of_polled_listeners(self.states, self.notified, self.reach(n));
        assert forall|k: int| 0 <= k < self.notify_wakers(n).len() implies exists|i: int|
            0 <= i < self.states.len() && self.states[i] == State::Polling(
                #[trigger] self.notify_wakers(n)[k],
            ) && self.notify(n).states[i] is Notified by {
            let w = wakers(self.states, self.notified, self.reach(n))[k];
            let i = choose|i: int|
                self.notified <= i < self.reach(n) && self.states[i] == State::Polling(w);
            assert(self.states[i] == State::Polling(w) && self.notify(n).states[i] is Notified);
        }
    }

    /// A listener registers at the end, and all others stay as they are.
    pub proof fn law_listener_registers_last(self, key: usize, waker: W, i: int)
        requires
            self.wf(),
        ensures
            self.inserted(key).keys == self.keys.push(key),
            self.inserted(key).states == self.states.push(State::Created),
            self.inserted(key).notified == self.notified,
            self.waiting(key, waker).keys == self.keys.push(key),
            self.waiting(key, waker).states == self.states.push(State::Polling(waker)),
            self.waiting(key, waker).notified == self.notified,
    {
    }

    /// A listener that leaves takes its state with it, and the others keep theirs and their order.
    pub proof fn law_others_stay_in_order(self, i: int, j: int)
        requires
            self.wf(),
            0 <= i < self.keys.len(),
            0 <= j < self.keys.len() - 1,
        ensures
            ({
                let post = self.removed(i);
                let from = if j < i {
                    j
                } else {
                    j + 1
                };
                &&& post.keys.len() == self.keys.len() - 1
                &&& post.states.len() == self.states.len() - 1
                &&& post.keys[j] == self.keys[from]
                &&& post.states[j] == self.states[from]
                &&& post.notified == self.notified - (if self.states[i] is Notified {
                    1int
                } else {
                    0
                })
            }),
    {
    }

    /// A listener that was notified leaves when it is polled. Any other one stays, and wakes the task
    /// that polls it: through the waker it has, if that is to be kept, and else through the new one.
    pub proof fn law_polled_listener_wakes_its_task(self, i: int, waker: W, keep: bool, j: int)
        requires
            self.wf(),
            0 <= i < self.keys.len(),
        ensures
            ({
                let post = self.polled(i, waker, keep);
                if self.states[i] is Notified {
                    post == self.removed(i)
                } else {
                    &&& post.keys == self.keys
                    &&& post.notified == self.notified
                    &&& post.states.len() == self.states.len()
                    &&& self.states[i] is Created || !keep ==> post.states[i] == State::Polling(waker)
                    &&& self.states[i] is Polling && keep ==> post.states[i] == self.states[i]
                    &&& 0 <= j < self.states.len() && j != i ==> post.states[j] == self.states[j]
                }
            }),
    {
    }

    /// What becomes of the notification of a listener that is given up. One that was not notified
    /// has none to pass on, and nobody is woken. Otherwise the first of the others is notified,
    /// unless one of them is notified already; a notification that was delivered on top of others
    /// goes to one more. The task of a listener that is notified then is woken, and no other.
    pub proof fn law_given_up_listener(self, i: int)
        requires
            self.wf(),
            0 <= i < self.keys.len(),
        ensures
            self.dropped(i).keys == self.removed(i).keys,
            !(self.states[i] is Notified) ==> self.dropped(i) == self.removed(i)
                && self.passed_wakers(i).len() == 0,
            self.states[i] is Notified ==> {
                let rest = self.removed(i);
                let additional = self.states[i]->Notified_0;
                let next = rest.notified;
                if next < rest.keys.len() && (additional || next == 0) {
                    &&& self.dropped(i).notified == next + 1
                    &&& self.dropped(i).states == rest.states.update(
                        next,
                        State::Notified(additional),
                    )
                    &&& self.passed_wakers(i) == (match rest.states[next] {
                        State::Polling(w) => seq![w],
                        _ => Seq::empty(),
                    })
                } else {
                    &&& self.dropped(i) == rest
                    &&& self.passed_wakers(i).len() == 0
                }
            },
    {
        let rest = self.removed(i);
        self.lemma_removed(i);
        law_waker_of_one_listener(rest.states, rest.notified);
        if self.states[i] is Notified {
            let next = rest.notified;
            if next < rest.keys.len() && (self.states[i]->Notified_0 || next == 0) {
                assert(self.dropped(i).states =~= rest.states.update(
                    next,
                    State::Notified(self.states[i]->Notified_0),
                ));
            }
        }
    }

    /// A task that goes on waiting is known to the list afterwards, not notified, and woken through
    /// the waker it has, if that is to be kept, and else through the new one. No other listener is
    /// touched, but for one of the same task that was notified, which is gone.
    pub proof fn law_waiting_task_is_registered(
        self,
        before: Option<usize>,
        after: usize,
        waker: W,
        keep: bool,
        post: ListView<W>,
        other: usize,
    )
        requires
            self.wf(),
            before matches Some(key) ==> self.keys.contains(key),
            self.registers(before, after, waker, keep, post),
        ensures
            post.keys.contains(after),
            !post.is_notified(after),
            post.states[post.at(after)] == State::Polling(waker) || keep && before == Some(after)
                && post.states[post.at(after)] == self.states[self.at(after)],
            other != after && before != Some(other) ==> (post.keys.contains(other)
                <==> self.keys.contains(other)),
            other != after && before == Some(other) ==> !post.keys.contains(other),
    {
        match before {
            Some(key) if !self.is_notified(key) => {},
            Some(key) => {
                let rest = self.removed(self.at(key));
                self.lemma_removed(self.at(key));
                rest.lemma_waiting(after, waker, keep);
                assert(rest.keys.push(after).last() == after);
                let keys = rest.keys.push(after);
                assert(keys[rest.keys.len() as int] == after);
                rest.lemma_pushed_key(after);
                if post.keys.contains(other) && other != after {
                    let j = post.keys.index_of(other);
                    assert(rest.keys[j] == other);
                }
                if rest.keys.contains(other) {
                    let j = rest.keys.index_of(other);
                    assert(post.keys[j] == other);
                }
            },
            None => {
                self.lemma_pushed_key(after);
                if post.keys.contains(other) && other != after {
                    let j = post.keys.index_of(other);
                    assert(self.keys[j] == other);
                }
                if self.keys.contains(other) {
                    let j = self.keys.index_of(other);
                    assert(post.keys[j] == other);
                }
            },
        }
    }

    /// A key that is new is at the end.
    proof fn lemma_pushed_key(self, key: usize)
        requires
            !self.keys.contains(key),
        ensures
            self.keys.push(key).contains(key),
            self.keys.push(key).index_of(key) == self.keys.len(),
    {
        let keys = self.keys.push(key);
        assert(keys[self.keys.len() as int] == key);
        let i = keys.index_of(key);
        assert(keys[i] == key);
        if i < self.keys.len() {
            assert(self.keys[i] == key);
        }
    }

    /// A task that picks up its notification is not in the list any more, and all others are.
    pub proof fn law_picked_up(self, before: Option<usize>, other: usize)
        requires
            self.wf(),
            before matches Some(key) ==> self.keys.contains(key),
        ensures
            before is None ==> self.picked_up(before) == self,
            before matches Some(key) ==> !self.picked_up(before).keys.contains(key),
            before != Some(other) ==> (self.picked_up(before).keys.contains(other)
                <==> self.keys.contains(other)),
            before matches Some(key) ==> self.picked_up(before).keys.len() == self.keys.len() - 1,
    {
        match before {
            Some(key) => self.lemma_removed(self.at(key)),
            None => {},
        }
    }

    /// A new listener that is polled waits.
    pub proof fn lemma_waiting(self, key: usize, waker: W, keep: bool)
        requires
            self.wf(),
            !self.keys.contains(key),
        ensures
            self.inserted(key).keys.contains(key),
            !self.inserted(key).is_notified(key),
            self.inserted(key).polled(self.inserted(key).at(key), waker, keep) == self.waiting(
                key,
                waker,
            ),
    {
        let keys = self.inserted(key).keys;
        assert(keys[self.keys.len() as int] == key);
        assert(self.inserted(key).at(key) == self.keys.len()) by {
            let i = self.inserted(key).at(key);
            assert(keys[i] == key);
            if i < self.keys.len() {
                assert(self.keys[i] == key);
            }
        }
        assert(self.inserted(key).states.update(self.keys.len() as int, State::Polling(waker))
            =~= self.states.push(State::Polling(waker)));
    }

    /// A notification of all listeners reaches every one of them.
    pub proof fn lemma_notify_all(self)
        requires
            self.wf(),
        ensures
            self.notify(usize::MAX as int).notified == self.keys.len(),
            self.notify(usize::MAX as int).keys == self.keys,
            self.notify(usize::MAX as int).wf(),
    {
    }

    /// A notification keeps all listeners, and leaves one notified if there is any.
    pub proof fn lemma_notify(self, n: int)
        requires
            self.wf(),
        ensures
            self.notify(n).keys == self.keys,
            self.notify(n).notified == self.reach(n),
            self.notify(n).wf(),
    {
    }

    /// A listener leaves the list, and all others stay.
    pub proof fn lemma_removed(self, i: int)
        requires
            self.wf(),
            0 <= i < self.keys.len(),
        ensures
            self.removed(i).wf(),
            !self.removed(i).keys.contains(self.keys[i]),
            forall|key: usize|
                key != self.keys[i] ==> (#[trigger] self.removed(i).keys.contains(key)
                    <==> self.keys.contains(key)),
    {
        let post = self.removed(i).keys;
        assert forall|key: usize| key != self.keys[i] implies (#[trigger] post.contains(key)
            <==> self.keys.contains(key)) by {
            if self.keys.contains(key) {
                let j = self.keys.index_of(key);
                if j < i {
                    assert(post[j] == key);
                } else {
                    assert(post[j - 1] == key);
                }
            }
            if post.contains(key) {
                let j = post.index_of(key);
                if j < i {
                    assert(self.keys[j] == key);
                } else {
                    assert(self.keys[j + 1] == key);
                }
            }
        }
    }

    /// How many listeners are notified once `n` of them have to be.
    pub open spec fn reach(self, n: int) -> int {
        if n <= self.notified {
            self.notified
        } else if n <= self.keys.len() {
            n
        } else {
            self.keys.len() as int
        }
    }
}

/// A first-in first-out list of listeners. Notified listeners are at the front.
pub struct List<W> {
    entries: Slab<Entry<W>>,
    /// The listener that registered first.
    head: Option<usize>,
    /// The listener that registered last.
    tail: Option<usize>,
    /// The first listener that was not notified.
    start: Option<usize>,
    /// Number of listeners.
    len: usize,
    /// Number of notified listeners.
    notified: usize,
    /// The keys, in order.
    keys: Ghost<Seq<usize>>,
}

/// The key at place `i`, if there is such a place.
spec fn link(keys: Seq<usize>, i: int) -> Option<usize> {
    if 0 <= i < keys.len() {
        Some(keys[i])
    } else {
        None
    }
}

impl<W> View for List<W> {
    type V = ListView<W>;

    closed spec fn view(&self) -> ListView<W> {
        ListView {
            keys: self.keys@,
            states: Seq::new(
                self.keys@.len(),
                |i: int| self.entries@.slots[self.keys@[i] as int]->0.state,
            ),
            notified: self.notified as int,
        }
    }
}

impl<W> List<W> {
    /// The entries are linked in the order of the keys.
    pub closed spec fn wf(&self) -> bool {
        &&& self@.wf()
        &&& self.linked()
        &&& self.len == self.keys@.len()
        &&& self.head == link(self.keys@, 0)
        &&& self.tail == link(self.keys@, self.keys@.len() - 1)
        &&& self.start == link(self.keys@, self.notified as int)
    }

    spec fn linked(&self) -> bool {
        &&& self.entries.wf()
        &&& forall|i: int| 0 <= i < self.keys@.len() ==> #[trigger] self.linked_at(i)
    }

    /// The entry at place `i` is there, between its neighbours.
    spec fn linked_at(&self, i: int) -> bool {
        let key = self.keys@[i] as int;
        &&& self.entries@.occupied(key)
        &&& self.entries@.slots[key]->0.prev == link(self.keys@, i - 1)
        &&& self.entries@.slots[key]->0.next == link(self.keys@, i + 1)
    }

    /// An empty list.
    pub fn new() -> (list: List<W>)
        ensures
            list.wf(),
            list@.keys == Seq::<usize>::empty(),
            list@.states == Seq::<State<W>>::empty(),
            list@.notified == 0,
    {
        List {
            entries: Slab::with_capacity(0),
            head: None,
            tail: None,
            start: None,
            len: 0,
            notified: 0,
            keys: Ghost(Seq::empty()),
        }
    }

    /// Links the entry `key` to another one after it.
    fn set_next(entries: &mut Slab<Entry<W>>, key: usize, next: Option<usize>)
        requires
            old(entries).wf(),
            old(entries)@.occupied(key as int),
        ensures
            final(entries).wf(),
            final(entries)@.free == old(entries)@.free,
            final(entries)@.slots == old(entries)@.slots.update(
                key as int,
                Some(Entry { next, ..old(entries)@.slots[key as int]->0 }),
            ),
    {
        match entries.get_mut(key) {
            Some(entry) => {
                entry.next = next;
            },
            None => {},
        }
    }

    /// Links the entry `key` to another one before it.
    fn set_prev(entries: &mut Slab<Entry<W>>, key: usize, prev: Option<usize>)
        requires
            old(entries).wf(),
            old(entries)@.occupied(key as int),
        ensures
            final(entries).wf(),
            final(entries)@.free == old(entries)@.free,
            final(entries)@.slots == old(entries)@.slots.update(
                key as int,
                Some(Entry { prev, ..old(entries)@.slots[key as int]->0 }),
            ),
    {
        match entries.get_mut(key) {
            Some(entry) => {
                entry.prev = prev;
            },
            None => {},
        }
    }

    /// Registers a listener and returns its key.
    pub fn insert(&mut self) -> (key: usize)
        requires
            old(self).wf(),
        ensures
            final(self).wf(),
            !old(self)@.keys.contains(key),
            final(self)@ == old(self)@.inserted(key),
    {
        proof {
            if self.keys@.len() > 0 {
                assert(self.linked_at(self.keys@.len() - 1));
            }
        }
        let entry = Entry { state: State::Created, prev: self.tail, next: None };
        let key = self.entries.insert(entry);

        proof {
            assert(!self.keys@.contains(key)) by {
                assert forall|i: int| 0 <= i < self.keys@.len() implies self.keys@[i] != key by {
                    assert(old(self).linked_at(i));
                }
            }
            assert forall|i: int| 0 <= i < self.keys@.len() implies self.keys@[i]
                < self.entries@.slots.len() by {
                assert(old(self).linked_at(i));
            }
            crate::util::slab::lemma_distinct_bounded(self.keys@.push(key), self.entries@.slots.len());
        }

        // Replace the tail with the new entry.
        match self.tail {
            None => {
                self.head = Some(key);
            },
            Some(t) => {
                Self::set_next(&mut self.entries, t, Some(key));
            },
        }
        self.tail = Some(key);

        // If there were no unnotified entries, this one is the first now.
        if self.start.is_none() {
            self.start = self.tail;
        }
        // Bump the entry count.
        self.len = self.len + 1;
        proof {
            self.keys@ = self.keys@.push(key);
            assert forall|i: int| 0 <= i < self.keys@.len() implies #[trigger] self.linked_at(i) by {
                if i < old(self).keys@.len() {
                    assert(old(self).linked_at(i));
                }
            }
            assert forall|i: int| 0 <= i < old(self).keys@.len() implies self@.states[i]
                == old(self)@.states[i] by {
                assert(old(self).linked_at(i));
                assert(self.linked_at(i));
            }
            assert(self@.states =~= old(self)@.inserted(key).states);
        }
        key
    }

    /// The entry at `slots[key]` with another link to the entry after it.
    spec fn relinked_next(slots: Seq<Option<Entry<W>>>, key: Option<usize>, next: Option<usize>) -> Seq<
        Option<Entry<W>>,
    > {
        match key {
            Some(k) => slots.update(k as int, Some(Entry { next, ..slots[k as int]->0 })),
            None => slots,
        }
    }

    /// The entry at `slots[key]` with another link to the entry before it.
    spec fn relinked_prev(slots: Seq<Option<Entry<W>>>, key: Option<usize>, prev: Option<usize>) -> Seq<
        Option<Entry<W>>,
    > {
        match key {
            Some(k) => slots.update(k as int, Some(Entry { prev, ..slots[k as int]->0 })),
            None => slots,
        }
    }

    /// With its neighbours linked to one another, the list is linked without the entry `at`.
    proof fn lemma_unlinked(pre: Self, post: Self, at: int)
        requires
            pre.wf(),
            0 <= at < pre.keys@.len(),
            post.entries.wf(),
            post.keys@ == pre.keys@.remove(at),
            ({
                let prev = link(pre.keys@, at - 1);
                let next = link(pre.keys@, at + 1);
                let slots = pre.entries@.slots.update(pre.keys@[at] as int, None);
                post.entries@.slots == Self::relinked_prev(
                    Self::relinked_next(slots, prev, next),
                    next,
                    prev,
                )
            }),
            post.notified == (if at < pre.notified {
                pre.notified - 1
            } else {
                pre.notified as int
            }),
        ensures
            post.linked(),
            post@ == pre@.removed(at),
            post@.wf(),
    {
        let keys = pre.keys@;
        assert(pre.linked_at(at));
        if at > 0 {
            assert(pre.linked_at(at - 1));
        }
        if at + 1 < keys.len() {
            assert(pre.linked_at(at + 1));
        }
        assert forall|i: int| 0 <= i < post.keys@.len() implies #[trigger] post.linked_at(i)
            && post@.states[i] == pre@.removed(at).states[i] by {
            let j = if i < at {
                i
            } else {
                i + 1
            };
            assert(post.keys@[i] == keys[j]);
            assert(pre.linked_at(j));
            assert(keys[j] != keys[at]);
        }
        assert(post@.states =~= pre@.removed(at).states) by {
            assert forall|i: int| 0 <= i < post.keys@.len() implies post@.states[i]
                == pre@.removed(at).states[i] by {
                assert(post.linked_at(i));
            }
        }
    }

    /// Takes the listener `key` out of the list and returns its state.
    pub fn remove(&mut self, key: usize) -> (state: State<W>)
        requires
            old(self).wf(),
            old(self)@.keys.contains(key),
        ensures
            final(self).wf(),
            state == old(self)@.states[old(self)@.at(key)],
            final(self)@ == old(self)@.removed(old(self)@.at(key)),
    {
        let ghost keys = self.keys@;
        let ghost at = keys.index_of(key);
        proof {
            assert(keys[at] == key);
            assert(self.linked_at(at));
            if at > 0 {
                assert(self.linked_at(at - 1));
            }
            if at + 1 < keys.len() {
                assert(self.linked_at(at + 1));
            }
        }
        let entry = self.entries.remove(key);
        let prev = entry.prev;
        let next = entry.next;

        // Unlink from the previous entry.
        match prev {
            None => {
                self.head = next;
            },
            Some(p) => {
                Self::set_next(&mut self.entries, p, next);
            },
        }

        // Unlink from the next entry.
        match next {
            None => {
                self.tail = prev;
            },
            Some(n) => {
                Self::set_prev(&mut self.entries, n, prev);
            },
        }

        // If this was the first unnotified entry, move on to the next one.
        if self.start == Some(key) {
            self.start = next;
        }
        // Update the counters.
        if entry.state.is_notified() {
            self.notified = self.notified - 1;
        }
        self.len = self.len - 1;
        proof {
            self.keys@ = keys.remove(at);
            Self::lemma_unlinked(*old(self), *self, at);
        }
        entry.state
    }

    /// Replaces the state of the entry `key`.
    fn replace_state(entries: &mut Slab<Entry<W>>, key: usize, state: State<W>) -> (prev: State<W>)
        requires
            old(entries).wf(),
            old(entries)@.occupied(key as int),
        ensures
            final(entries).wf(),
            prev == old(entries)@.slots[key as int]->0.state,
            final(entries)@.free == old(entries)@.free,
            final(entries)@.slots == old(entries)@.slots.update(
                key as int,
                Some(Entry { state, ..old(entries)@.slots[key as int]->0 }),
            ),
    {
        let mut state = state;
        match entries.get_mut(key) {
            Some(entry) => {
                core::mem::swap(&mut entry.state, &mut state);
            },
            None => {},
        }
        state
    }

    /// Notifies the first listener that was not notified, if there is one. Its waker, if a task
    /// is polling it, goes to the end of `woken`.
    fn notify_next(&mut self, additional: bool, woken: &mut Vec<W>) -> (found: bool)
        requires
            old(self).wf(),
        ensures
            final(self).wf(),
            found == (old(self)@.notified < old(self)@.keys.len()),
            found ==> final(self)@ == old(self)@.notified_to(
                old(self)@.notified + 1,
                additional,
            ),
            found ==> final(woken)@ == (match old(self)@.states[old(self)@.notified] {
                State::Polling(w) => old(woken)@.push(w),
                _ => old(woken)@,
            }),
            !found ==> *final(self) == *old(self) && *final(woken) == *old(woken),
    {
        match self.start {
            None => false,
            Some(key) => {
                let ghost at = self.notified as int;
                assert(self.linked_at(at));
                // Move the start forward.
                self.start = match self.entries.get(key) {
                    Some(entry) => entry.next,
                    None => None,
                };
                // Set the state of this entry to `Notified` and notify.
                match Self::replace_state(&mut self.entries, key, State::Notified(additional)) {
                    State::Notified(_) => {},
                    State::Created => {},
                    State::Polling(w) => {
                        woken.push(w);
                    },
                }
                // Update the counter.
                self.notified = self.notified + 1;
                proof {
                    assert forall|i: int| 0 <= i < self.keys@.len() implies
                        #[trigger] self.linked_at(i) by {
                        assert(old(self).linked_at(i));
                    }
                    assert forall|i: int| 0 <= i < self.keys@.len() implies self@.states[i]
                        == old(self)@.notified_to(at + 1, additional).states[i] by {
                        assert(old(self).linked_at(i));
                        assert(self.linked_at(i));
                    }
                    assert(self@.states =~= old(self)@.notified_to(at + 1, additional).states);
                }
                true
            },
        }
    }

    /// Notifies listeners, in order, until `n` of those in the list are notified or no listener
    /// is left. The wakers of those that are polled go to the end of `woken`.
    pub fn notify(&mut self, n: usize, woken: &mut Vec<W>)
        requires
            old(self).wf(),
        ensures
            final(self).wf(),
            final(self)@ == old(self)@.notify(n as int),
            final(woken)@ == old(woken)@ + old(self)@.notify_wakers(n as int),
    {
        if n <= self.notified {
            assert(woken@ + self@.notify_wakers(n as int) =~= woken@);
            return ;
        }
        let more: usize = n - self.notified;
        self.notify_more(more, false, woken);
    }

    /// Notifies `n` more listeners, in order, or all that are left if there are fewer. The wakers
    /// of those that are polled go to the end of `woken`.
    pub fn notify_additional(&mut self, n: usize, woken: &mut Vec<W>)
        requires
            old(self).wf(),
        ensures
            final(self).wf(),
            final(self)@ == old(self)@.notified_to(
                old(self)@.reach(old(self)@.notified + n),
                true,
            ),
            final(woken)@ == old(woken)@ + wakers(
                old(self)@.states,
                old(self)@.notified,
                old(self)@.reach(old(self)@.notified + n),
            ),
    {
        self.notify_more(n, true, woken);
    }

    fn notify_more(&mut self, n: usize, additional: bool, woken: &mut Vec<W>)
        requires
            old(self).wf(),
        ensures
            final(self).wf(),
            final(self)@ == old(self)@.notified_to(
                old(self)@.reach(old(self)@.notified + n),
                additional,
            ),
            final(woken)@ == old(woken)@ + wakers(
                old(self)@.states,
                old(self)@.notified,
                old(self)@.reach(old(self)@.notified + n),
            ),
    {
        let mut left: usize = n;
        let ghost pre = self@;
        assert(self@.notified_to(pre.notified, additional) == pre);
        assert(woken@ + wakers(pre.states, pre.notified, pre.notified) =~= woken@);
        while left > 0
            invariant
                self.wf(),
                pre == old(self)@,
                pre.wf(),
                left <= n,
                pre.notified <= self@.notified <= pre.keys.len(),
                self@.notified == pre.notified + (n - left) || (left == 0 && self@.notified
                    == pre.reach(pre.notified + n)),
                self@ == pre.notified_to(self@.notified, additional),
                woken@ == old(woken)@ + wakers(
                    pre.states,
                    pre.notified,
                    self@.notified,
                ),
            decreases left,
        {
            let ghost at = self@.notified;
            left = left - 1;
            if !self.notify_next(additional, woken) {
                left = 0;
            } else {
                assert(self@.states =~= pre.notified_to(at + 1, additional).states);
            }
        }
    }

    /// A poll of the listener `key` by the task that `waker` wakes. A notified listener leaves
    /// the list, the poll is over and the waker is handed back; otherwise the task is registered.
    /// `keep` says that the waker registered before wakes the same task, and is kept in place of
    /// the new one.
    pub fn poll(&mut self, key: usize, waker: W, keep: bool) -> (poll: Poll<W>)
        requires
            old(self).wf(),
            old(self)@.keys.contains(key),
        ensures
            final(self).wf(),
            poll == (if old(self)@.states[old(self)@.at(key)] is Notified {
                Poll::Ready(waker)
            } else {
                Poll::Pending
            }),
            final(self)@ == old(self)@.polled(old(self)@.at(key), waker, keep),
    {
        let ghost keys = self.keys@;
        let ghost at = keys.index_of(key);
        assert(self.linked_at(at));
        // Take out the state.
        let taken: bool = match self.entries.get(key) {
            Some(entry) => entry.state.is_notified(),
            None => false,
        };
        if taken {
            // This listener has been notified: remove it from the list.
            let _ = self.remove(key);
            Poll::Ready(waker)
        } else {
            match Self::replace_state(&mut self.entries, key, State::Created) {
                State::Polling(w) => {
                    // It was polled before: update the waker.
                    let state = if keep {
                        State::Polling(w)
                    } else {
                        State::Polling(waker)
                    };
                    let _ = Self::replace_state(&mut self.entries, key, state);
                },
                _ => {
                    // It was just created.
                    let _ = Self::replace_state(&mut self.entries, key, State::Polling(waker));
                },
            }
            proof {
                assert forall|i: int| 0 <= i < self.keys@.len() implies #[trigger] self.linked_at(
                    i,
                ) && self@.states[i] == old(self)@.polled(at, waker, keep).states[i] by {
                    assert(old(self).linked_at(i));
                }
                assert(self@.states =~= old(self)@.polled(at, waker, keep).states) by {
                    assert forall|i: int| 0 <= i < self.keys@.len() implies self@.states[i]
                        == old(self)@.polled(at, waker, keep).states[i] by {
                        assert(self.linked_at(i));
                    }
                }
            }
            Poll::Pending
        }
    }
}

/// A list of listeners and a copy of its counter that can be read without walking it.
struct Inner<W> {
    /// The number of notified listeners, or `usize::MAX` if every listener is notified.
    notified: usize,
    list: List<W>,
}

impl<W> Inner<W> {
    spec fn wf(&self) -> bool {
        &&& self.list.wf()
        &&& self.notified == (if self.list@.notified < self.list@.keys.len() {
            self.list@.notified
        } else {
            usize::MAX as int
        })
    }

    /// Brings the counter up to date after a change of the list.
    fn unlock(&mut self)
        requires
            old(self).list.wf(),
        ensures
            final(self).wf(),
            final(self).list == old(self).list,
    {
        self.notified = if self.list.notified < self.list.len {
            self.list.notified
        } else {
            usize::MAX
        };
    }
}

/// Something that tasks wait for. Its list of listeners is made when the first one registers.
pub struct Event<W> {
    inner: Option<Inner<W>>,
}

impl<W> View for Event<W> {
    type V = ListView<W>;

    closed spec fn view(&self) -> ListView<W> {
        match self.inner {
            Some(inner) => inner.list@,
            None => ListView { keys: Seq::empty(), states: Seq::empty(), notified: 0 },
        }
    }
}

impl<W> Event<W> {
    pub closed spec fn wf(&self) -> bool {
        self.inner matches Some(inner) ==> inner.wf()
    }

    /// An event that nobody listens to.
    pub fn new() -> (event: Event<W>)
        ensures
            event.wf(),
            event@.keys == Seq::<usize>::empty(),
            event@.states == Seq::<State<W>>::empty(),
            event@.notified == 0,
    {
        Event { inner: None }
    }

    /// The list of listeners is a well-formed one.
    pub proof fn lemma_wf(&self)
        requires
            self.wf(),
        ensures
            self@.wf(),
    {
    }

    /// The list of listeners, made on first use.
    fn inner(&mut self) -> (inner: Inner<W>)
        requires
            old(self).wf(),
        ensures
            inner.wf(),
            inner.list@ == old(self)@,
            final(self).inner is None,
    {
        match self.inner.take() {
            Some(inner) => inner,
            None => Inner { notified: usize::MAX, list: List::new() },
        }
    }

    /// Registers a listener.
    pub fn listen(&mut self) -> (listener: EventListener)
        requires
            old(self).wf(),
        ensures
            final(self).wf(),
            listener@ is Some,
            !old(self)@.keys.contains(listener@->0),
            final(self)@ == old(self)@.inserted(listener@->0),
    {
        let mut inner = self.inner();
        let key = inner.list.insert();
        inner.unlock();
        self.inner = Some(inner);
        EventListener { entry: Some(key) }
    }

    /// Notifies listeners, in order, until `n` of those registered are notified or no listener is
    /// left. The wakers of those that are polled go to the end of `woken`.
    pub fn notify(&mut self, n: usize, woken: &mut Vec<W>)
        requires
            old(self).wf(),
        ensures
            final(self).wf(),
            final(self)@ == old(self)@.notify(n as int),
            final(woken)@ == old(woken)@ + old(self)@.notify_wakers(n as int),
    {
        match self.inner.take() {
            Some(inner) => {
                let mut inner = inner;
                // Notify if there is at least one unnotified listener and the number of notified
                // listeners is less than `n`.
                if inner.notified < n {
                    inner.list.notify(n, woken);
                    inner.unlock();
                } else {
                    assert(woken@ + inner.list@.notify_wakers(n as int) =~= woken@);
                }
                self.inner = Some(inner);
            },
            None => {
                assert(woken@ + self@.notify_wakers(n as int) =~= woken@);
            },
        }
    }
}

impl<W> Default for Event<W> {
    fn default() -> (event: Event<W>)
        ensures
            event.wf(),
            event@.keys == Seq::<usize>::empty(),
            event@.states == Seq::<State<W>>::empty(),
            event@.notified == 0,
    {
        Event::new()
    }
}

/// The registration of a task that waits for an event, until a notification is picked up.
pub struct EventListener {
    entry: Option<usize>,
}

impl View for EventListener {
    type V = Option<usize>;

    /// The key under which the event knows this listener; none once it is done.
    closed spec fn view(&self) -> Option<usize> {
        self.entry
    }
}

impl EventListener {
    /// Whether this listener is registered with the event.
    pub open spec fn listens<W>(&self, event: ListView<W>) -> bool {
        self@ matches Some(key) && event.keys.contains(key)
    }

    /// Polls the listener for the task that `waker` wakes. A waker that is not registered, because
    /// the listener was notified, is handed back. `keep` says that the waker registered before
    /// wakes the same task, and is kept in place of the new one.
    pub fn poll<W>(&mut self, event: &mut Event<W>, waker: W, keep: bool) -> (poll: Poll<W>)
        requires
            old(event).wf(),
            old(self).listens(old(event)@),
        ensures
            final(event).wf(),
            poll == (if old(event)@.states[old(event)@.at(old(self)@->0)] is Notified {
                Poll::Ready(waker)
            } else {
                Poll::Pending
            }),
            final(event)@ == old(event)@.polled(old(event)@.at(old(self)@->0), waker, keep),
            final(self)@ == (if poll is Ready {
                None
            } else {
                old(self)@
            }),
    {
        let mut inner = event.inner();
        let poll = match self.entry {
            Some(key) => inner.list.poll(key, waker, keep),
            None => Poll::Pending,
        };
        inner.unlock();
        event.inner = Some(inner);
        if poll.is_ready() {
            self.entry = None;
        }
        poll
    }

    /// Gives up the listener. A notification that it had received and not picked up is passed on
    /// to another one; a waker that this calls goes to the end of `woken`.
    pub fn drop<W>(self, event: &mut Event<W>, woken: &mut Vec<W>)
        requires
            old(event).wf(),
            self@ is Some ==> self.listens(old(event)@),
        ensures
            final(event).wf(),
            match self@ {
                Some(key) => {
                    &&& final(event)@ == old(event)@.dropped(old(event)@.at(key))
                    &&& final(woken)@ == old(woken)@ + old(event)@.passed_wakers(
                        old(event)@.at(key),
                    )
                },
                None => final(event)@ == old(event)@ && final(woken)@ == old(woken)@,
            },
    {
        // If this listener has never picked up a notification...
        match self.entry {
            Some(key) => {
                let mut inner = event.inner();
                // But if a notification was delivered to it...
                match inner.list.remove(key) {
                    State::Notified(additional) => {
                        // Then pass it on to another active listener.
                        if additional {
                            inner.list.notify_additional(1, woken);
                        } else {
                            inner.list.notify(1, woken);
                        }
                    },
                    _ => {
                        proof {
                            let at = old(event)@.at(key);
                            assert(woken@ + old(event)@.passed_wakers(at) =~= woken@);
                        }
                    },
                }
                inner.unlock();
                event.inner = Some(inner);
            },
            None => {},
        }
    }
}

} // verus!
