//! A pre-allocated store of values under integer keys.

use vstd::prelude::*;

verus! {

/// What a slot of the slab holds: the key of the next vacant slot, or a value.
#[derive(Clone)]
enum Entry<T> {
    Vacant(usize),
    Occupied(T),
}

/// What a slab is: the value of each slot, and the vacant slots in the order in which `insert`
/// fills them.
pub ghost struct SlabView<T> {
    pub slots: Seq<Option<T>>,
    pub free: Seq<usize>,
}

impl<T> SlabView<T> {
    /// Whether a value is stored under `key`.
    pub open spec fn occupied(self, key: int) -> bool {
        0 <= key < self.slots.len() && self.slots[key] is Some
    }

    /// The key under which the next value is stored.
    pub open spec fn next_key(self) -> int {
        if self.free.len() == 0 {
            self.slots.len() as int
        } else {
            self.free[0] as int
        }
    }

    /// The slab after `val` is inserted.
    pub open spec fn inserted(self, val: T) -> SlabView<T> {
        if self.free.len() == 0 {
            SlabView { slots: self.slots.push(Some(val)), free: self.free }
        } else {
            SlabView {
                slots: self.slots.update(self.free[0] as int, Some(val)),
                free: self.free.drop_first(),
            }
        }
    }

    /// The slab after the value under `key` is removed.
    pub open spec fn removed(self, key: usize) -> SlabView<T> {
        SlabView { slots: self.slots.update(key as int, None), free: seq![key] + self.free }
    }

    /// Nothing is stored.
    pub open spec fn is_vacant(self) -> bool {
        forall|i: int| 0 <= i < self.slots.len() ==> self.slots[i] is None
    }

    /// The number of values stored.
    pub open spec fn count(self) -> int {
        self.slots.len() - self.free.len()
    }

    /// The vacant slots are exactly those that `free` lists, each of them once.
    pub open spec fn wf(self) -> bool {
        &&& self.free.no_duplicates()
        &&& self.free.len() <= self.slots.len()
        &&& forall|i: int|
            0 <= i < self.free.len() ==> (#[trigger] self.free[i]) < self.slots.len()
                && self.slots[self.free[i] as int] is None
        &&& forall|i: int|
            0 <= i < self.slots.len() && self.slots[i] is None ==> #[trigger] self.listed(i)
    }

    /// `key` is one of the vacant slots listed in `free`.
    pub open spec fn listed(self, key: int) -> bool {
        self.free.contains(key as usize)
    }

    /// A value that is inserted is stored under its key, and counts.
    pub proof fn law_inserted_is_stored(self, val: T)
        requires
            self.wf(),
        ensures
            !self.occupied(self.next_key()),
            self.inserted(val).occupied(self.next_key()),
            self.inserted(val).slots[self.next_key()] == Some(val),
            self.inserted(val).count() == self.count() + 1,
    {
    }

    /// A key has a value exactly if there is one in its slot, and a slab is vacant if no key has one.
    pub proof fn law_occupied(self, key: int)
        ensures
            self.occupied(key) <==> 0 <= key < self.slots.len() && self.slots[key] is Some,
            self.is_vacant() ==> !self.occupied(key),
            !self.is_vacant() ==> exists|k: int| #[trigger] self.occupied(k),
    {
        if !self.is_vacant() {
            let k = choose|k: int| 0 <= k < self.slots.len() && self.slots[k] is Some;
            assert(self.occupied(k));
        }
    }

    /// An insertion leaves every value where it is.
    pub proof fn law_insert_keeps_others(self, val: T, key: int)
        requires
            self.wf(),
            self.occupied(key),
        ensures
            self.inserted(val).occupied(key),
            self.inserted(val).slots[key] == self.slots[key],
    {
    }

    /// A removal leaves every other value where it is.
    pub proof fn law_remove_keeps_others(self, removed: usize, key: int)
        requires
            self.occupied(removed as int),
            self.occupied(key),
            key != removed,
        ensures
            !self.removed(removed).occupied(removed as int),
            self.removed(removed).occupied(key),
            self.removed(removed).slots[key] == self.slots[key],
            self.removed(removed).count() == self.count() - 1,
    {
    }

    /// The key that was freed last is given out first.
    pub proof fn law_freed_key_is_reused(self, key: usize, val: T)
        requires
            self.occupied(key as int),
        ensures
            self.removed(key).next_key() == key,
            self.removed(key).inserted(val).slots == self.slots.update(key as int, Some(val)),
            self.removed(key).inserted(val).free == self.free,
    {
        let post = self.removed(key).inserted(val);
        assert(post.slots =~= self.slots.update(key as int, Some(val)));
        assert(post.free =~= self.free);
    }

    /// Nothing is stored exactly if the number of values is zero.
    pub proof fn law_vacant_is_empty(self)
        requires
            self.wf(),
            self.slots.len() <= usize::MAX,
        ensures
            self.is_vacant() <==> self.count() == 0,
    {
        if self.is_vacant() {
            self.lemma_vacant();
        } else {
            let k = choose|k: int| 0 <= k < self.slots.len() && self.slots[k] is Some;
            assert(!self.free.contains(k as usize)) by {
                if self.free.contains(k as usize) {
                    let j = self.free.index_of(k as usize);
                    assert(self.free[j] == k as usize);
                }
            }
            let more = self.free.push(k as usize);
            assert(more.no_duplicates());
            lemma_distinct_bounded(more, self.slots.len());
        }
    }

    /// Where nothing is stored, every slot is listed.
    proof fn lemma_vacant(self)
        requires
            self.wf(),
            self.is_vacant(),
            self.slots.len() <= usize::MAX,
        ensures
            self.free.len() == self.slots.len(),
    {
        let all = vstd::set_lib::set_int_range(0, self.slots.len() as int);
        vstd::set_lib::lemma_int_range(0, self.slots.len() as int);
        let ints = self.free.map_values(|k: usize| k as int);
        ints.unique_seq_to_set();
        assert forall|k: int| all.contains(k) implies ints.to_set().contains(k) by {
            assert(self.listed(k));
            let j = choose|j: int| 0 <= j < self.free.len() && self.free[j] == k as usize;
            assert(ints[j] == k);
        }
        vstd::set_lib::lemma_len_subset(all, ints.to_set());
    }

    /// An insertion keeps the list of vacant slots exact.
    proof fn lemma_inserted(self, val: T)
        requires
            self.wf(),
            self.slots.len() <= usize::MAX,
        ensures
            self.inserted(val).wf(),
    {
        let post = self.inserted(val);
        assert forall|i: int| 0 <= i < post.slots.len() && post.slots[i] is None implies
            #[trigger] post.listed(i) by {
            assert(self.listed(i));
            let j = choose|j: int| 0 <= j < self.free.len() && self.free[j] == i as usize;
            if self.free.len() > 0 {
                assert(post.free[j - 1] == i as usize);
            }
        }
    }

    /// A removal keeps the list of vacant slots exact.
    proof fn lemma_removed(self, key: usize)
        requires
            self.wf(),
            self.slots.len() <= usize::MAX,
            self.occupied(key as int),
        ensures
            self.removed(key).wf(),
    {
        let post = self.removed(key);
        assert(post.free[0] == key);
        assert(forall|i: int| 1 <= i < post.free.len() ==> post.free[i] == self.free[i - 1]);
        assert forall|i: int| 0 <= i < post.slots.len() && post.slots[i] is None implies
            #[trigger] post.listed(i) by {
            if i != key {
                assert(self.listed(i));
                let j = choose|j: int| 0 <= j < self.free.len() && self.free[j] == i as usize;
                assert(post.free[j + 1] == i as usize);
            }
        }
        lemma_distinct_bounded(post.free, post.slots.len());
    }
}

/// Distinct keys below `n` are at most `n` many.
pub(crate) proof fn lemma_distinct_bounded(keys: Seq<usize>, n: nat)
    requires
        keys.no_duplicates(),
        forall|i: int| 0 <= i < keys.len() ==> (#[trigger] keys[i]) < n,
    ensures
        keys.len() <= n,
        keys.len() == n ==> forall|k: usize| k < n ==> #[trigger] keys.contains(k),
{
    let all = vstd::set_lib::set_int_range(0, n as int);
    vstd::set_lib::lemma_int_range(0, n as int);
    let ints = keys.map_values(|k: usize| k as int);
    assert(ints.no_duplicates());
    ints.unique_seq_to_set();
    assert(ints.to_set().subset_of(all)) by {
        assert forall|k: int| ints.to_set().contains(k) implies all.contains(k) by {
            let i = choose|i: int| 0 <= i < ints.len() && ints[i] == k;
            assert(keys[i] < n);
        }
    }
    vstd::set_lib::lemma_len_subset(ints.to_set(), all);
    if keys.len() == n {
        vstd::set_lib::lemma_subset_equality(ints.to_set(), all);
        assert forall|k: usize| k < n implies #[trigger] keys.contains(k) by {
            assert(all.contains(k as int));
            assert(ints.to_set().contains(k as int));
            let i = choose|i: int| 0 <= i < ints.len() && ints[i] == k;
            assert(keys[i] == k);
        }
    }
}

/// A store of values under integer keys. A key that was freed is given out again before the
/// store grows, the one freed last first.
#[derive(Clone)]
pub struct Slab<T> {
    /// The slots.
    entries: Vec<Entry<T>>,
    /// Number of occupied slots.
    len: usize,
    /// The next vacant slot: `entries.len()` when every slot is occupied.
    next: usize,
    /// The vacant slots, in the order of the list that starts at `next`.
    free: Ghost<Seq<usize>>,
}

impl<T> View for Slab<T> {
    type V = SlabView<T>;

    closed spec fn view(&self) -> SlabView<T> {
        SlabView {
            slots: self.entries@.map_values(
                |e: Entry<T>|
                    match e {
                        Entry::Vacant(_) => None,
                        Entry::Occupied(val) => Some(val),
                    },
            ),
            free: self.free@,
        }
    }
}

impl<T> Slab<T> {
    /// The slot that follows `free[i]` in the list of vacant slots.
    spec fn after(&self, i: int) -> int {
        if i + 1 < self.free@.len() {
            self.free@[i + 1] as int
        } else {
            self.entries@.len() as int
        }
    }

    /// The list of vacant slots starts at `next`, runs through the vacant slots and ends at the
    /// slot after the last.
    pub closed spec fn wf(&self) -> bool {
        &&& self@.wf()
        &&& self.len + self.free@.len() == self.entries@.len()
        &&& self.next == self@.next_key()
        &&& forall|i: int|
            0 <= i < self.free@.len() ==> (self.entries@[#[trigger] self.free@[i] as int] matches Entry::Vacant(n)
                && n == self.after(i))
    }

    /// Another value under an occupied key keeps the list of vacant slots.
    proof fn lemma_overwritten(pre: Self, post: Self, key: int, val: T)
        requires
            pre.wf(),
            pre@.occupied(key),
            post.entries@ == pre.entries@.update(key, Entry::Occupied(val)),
            post.len == pre.len,
            post.next == pre.next,
            post.free == pre.free,
        ensures
            post.wf(),
            post@.slots == pre@.slots.update(key, Some(val)),
            post@.free == pre@.free,
    {
        assert(post@.slots =~= pre@.slots.update(key, Some(val)));
        assert forall|i: int| 0 <= i < post@.slots.len() && post@.slots[i] is None implies
            #[trigger] post@.listed(i) by {
            assert(pre@.listed(i));
        }
    }

    /// What a slab is keeps its rules.
    pub proof fn lemma_wf(&self)
        requires
            self.wf(),
        ensures
            self@.wf(),
    {
    }

    /// An empty slab with room for `capacity` values.
    pub fn with_capacity(capacity: usize) -> (slab: Slab<T>)
        ensures
            slab.wf(),
            slab@.slots == Seq::<Option<T>>::empty(),
            slab@.free == Seq::<usize>::empty(),
    {
        Slab { entries: Vec::with_capacity(capacity), next: 0, len: 0, free: Ghost(Seq::empty()) }
    }

    /// The value under `key`.
    pub fn get(&self, key: usize) -> (val: Option<&T>)
        requires
            self.wf(),
        ensures
            match val {
                Some(v) => self@.occupied(key as int) && self@.slots[key as int] == Some(*v),
                None => !self@.occupied(key as int),
            },
    {
        if key < self.entries.len() {
            match &self.entries[key] {
                Entry::Occupied(val) => Some(val),
                Entry::Vacant(_) => None,
            }
        } else {
            None
        }
    }

    /// The value under `key`, to change in place.
    pub fn get_mut(&mut self, key: usize) -> (val: Option<&mut T>)
        requires
            old(self).wf(),
        ensures
            final(self).wf(),
            match val {
                Some(v) => {
                    &&& old(self)@.occupied(key as int)
                    &&& old(self)@.slots[key as int] == Some(*v)
                    &&& final(self)@.slots == old(self)@.slots.update(key as int, Some(*final(v)))
                    &&& final(self)@.free == old(self)@.free
                },
                None => !old(self)@.occupied(key as int) && final(self)@ == old(self)@,
            },
            final(self)@.wf(),
    {
        if key < self.entries.len() {
            match &mut self.entries[key] {
                Entry::Occupied(val) => {
                    proof {
                        Self::lemma_overwritten(*old(self), after_borrow(*self), key as int, *final(val));
                    }
                    Some(val)
                },
                Entry::Vacant(_) => {
                    assert(after_borrow(*self).entries@ =~= old(self).entries@);
                    None
                },
            }
        } else {
            None
        }
    }

    /// Stores `val` and returns its key.
    pub fn insert(&mut self, val: T) -> (key: usize)
        requires
            old(self).wf(),
        ensures
            final(self).wf(),
            key == old(self)@.next_key(),
            final(self)@ == old(self)@.inserted(val),
            final(self)@.slots.len() <= usize::MAX,
            final(self)@.wf(),
            old(self)@.wf(),
    {
        let key = self.next;
        proof {
            assert(self.entries.len() == self.entries@.len());
            self@.lemma_inserted(val);
        }

        if key == self.entries.len() {
            self.entries.push(Entry::Occupied(val));
            self.next = self.entries.len();
        } else {
            let mut prev = Entry::Occupied(val);
            core::mem::swap(&mut self.entries[key], &mut prev);

            match prev {
                Entry::Vacant(next) => {
                    self.next = next;
                },
                Entry::Occupied(_) => {
                    assert(false);
                },
            }
            proof {
                self.free@ = self.free@.drop_first();
            }
        }
        self.len = self.len + 1;
        assert(self.entries.len() == self.entries@.len());
        assert(self@.slots =~= old(self)@.inserted(val).slots);
        assert(self@.free =~= old(self)@.inserted(val).free);

        key
    }

    /// Takes out the value under `key`.
    pub fn remove(&mut self, key: usize) -> (val: T)
        requires
            old(self).wf(),
            old(self)@.occupied(key as int),
        ensures
            final(self).wf(),
            old(self)@.slots[key as int] == Some(val),
            final(self)@ == old(self)@.removed(key),
    {
        proof {
            assert(self.entries.len() == self.entries@.len());
            self@.lemma_removed(key);
        }
        let mut prev = Entry::Vacant(self.next);
        core::mem::swap(&mut self.entries[key], &mut prev);
        self.len = self.len - 1;
        self.next = key;
        proof {
            self.free@ = seq![key] + self.free@;
            assert(self@.slots =~= old(self)@.removed(key).slots);
            assert(self@.free =~= old(self)@.removed(key).free);
            assert(forall|i: int| 1 <= i < self.free@.len() ==> self.free@[i] == old(self).free@[i - 1]);
        }
        match prev {
            Entry::Occupied(val) => val,
            Entry::Vacant(_) => vstd::pervasive::unreached(),
        }
    }

    /// The number of values stored.
    pub fn len(&self) -> (n: usize)
        requires
            self.wf(),
        ensures
            n == self@.count(),
    {
        self.len
    }

    /// Whether nothing is stored.
    pub fn is_empty(&self) -> (b: bool)
        requires
            self.wf(),
        ensures
            b == self@.is_vacant(),
    {
        proof {
            lemma_distinct_bounded(self@.free, self@.slots.len());
            assert(self.entries.len() == self.entries@.len());
            if self.len == 0 {
                assert forall|i: int| 0 <= i < self@.slots.len() implies self@.slots[i] is None by {
                    assert(self@.free.contains(i as usize));
                }
            } else if self@.is_vacant() {
                self@.lemma_vacant();
            }
        }
        self.len == 0
    }

    /// Drops all values.
    pub fn clear(&mut self)
        ensures
            final(self).wf(),
            final(self)@.slots == Seq::<Option<T>>::empty(),
            final(self)@.free == Seq::<usize>::empty(),
    {
        self.entries.clear();
        self.len = 0;
        self.next = 0;
        proof {
            self.free@ = Seq::empty();
        }
    }

    /// Whether a value is stored under `key`.
    pub fn contains(&self, key: usize) -> (b: bool)
        requires
            self.wf(),
        ensures
            b == self@.occupied(key as int),
    {
        if key < self.entries.len() {
            match &self.entries[key] {
                Entry::Occupied(_) => true,
                Entry::Vacant(_) => false,
            }
        } else {
            false
        }
    }
}

} // verus!
