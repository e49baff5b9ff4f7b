//! A fixed-capacity bag of `(key, value)` entries whose `min` field tracks
//! the smallest key present, or a sentinel when the bag is empty.  The
//! millisecond tick uses it as the timed-waker queue: `min` is the earliest
//! deadline, and `take_less_than` drains every entry that has come due.

use vstd::multiset::Multiset;
use vstd::prelude::*;

verus! {

pub const ARRAY_SIZE: usize = 8;

/// Value of `min` when no entry is present.
pub const EMPTY_MIN: u32 = 0xffff_ffff;

pub struct MinArray<T> {
    data: Vec<Option<(u32, T)>>,
    pub min: u32,
    pub len: usize,
}

impl<T> View for MinArray<T> {
    type V = Seq<(u32, T)>;

    closed spec fn view(&self) -> Seq<(u32, T)> {
        Seq::new(self.len as nat, |i: int| self.data@[i]->0)
    }
}

impl<T> MinArray<T> {
    pub closed spec fn slots(self) -> Seq<Option<(u32, T)>> {
        self.data@
    }

    /// The current value of the `min` field, for use in public contracts.
    pub closed spec fn spec_min(self) -> u32 {
        self.min
    }

    /// Structural part of the invariant: a bank of `ARRAY_SIZE` slots whose
    /// occupied prefix has length `len`.
    pub open spec fn wf_slots(self) -> bool {
        &&& self.slots().len() == ARRAY_SIZE
        &&& self@.len() <= ARRAY_SIZE
        &&& forall|i: int| 0 <= i < ARRAY_SIZE ==> (self.slots()[i] is Some <==> i < self@.len())
    }

    /// The `min` field equals the smallest key present, or `EMPTY_MIN` when
    /// the bag is empty.
    pub open spec fn min_ok(self) -> bool {
        &&& forall|i: int| 0 <= i < self@.len() ==> self.spec_min() <= #[trigger] self@[i].0
        &&& self@.len() == 0 ==> self.spec_min() == EMPTY_MIN
        &&& self@.len() > 0 ==> exists|i: int| 0 <= i < self@.len() && self.spec_min() == #[trigger] self@[i].0
    }

    pub open spec fn wf(self) -> bool {
        self.wf_slots() && self.min_ok()
    }

    pub fn new() -> (a: MinArray<T>)
        ensures
            a.wf(),
            a@ == Seq::<(u32, T)>::empty(),
            a.spec_min() == EMPTY_MIN,
    {
        let mut data: Vec<Option<(u32, T)>> = Vec::new();
        let mut i: usize = 0;
        while i < ARRAY_SIZE
            invariant
                i <= ARRAY_SIZE,
                data@.len() == i,
                forall|j: int| 0 <= j < i ==> data@[j] is None,
            decreases ARRAY_SIZE - i,
        {
            data.push(None);
            i = i + 1;
        }
        let a = MinArray { data, min: EMPTY_MIN, len: 0 };
        proof {
            assert(a@ =~= Seq::<(u32, T)>::empty());
        }
        a
    }

    /// Insert an entry, lowering `min` if the new key is smaller; a full
    /// bag hands the value back.
    pub fn push(&mut self, key: u32, value: T) -> (r: Result<(), T>)
        requires
            old(self).wf(),
        ensures
            final(self).wf(),
            old(self)@.len() < ARRAY_SIZE ==> {
                &&& r is Ok
                &&& final(self)@ == old(self)@.push((key, value))
                &&& final(self).spec_min() == if key < old(self).spec_min() {
                    key
                } else {
                    old(self).spec_min()
                }
            },
            old(self)@.len() == ARRAY_SIZE ==> {
                &&& r == Result::<(), T>::Err(value)
                &&& *final(self) == *old(self)
            },
    {
        if self.len >= ARRAY_SIZE {
            return Err(value);
        }
        self.data[self.len] = Some((key, value));
        if key < self.min {
            self.min = key;
        }
        self.len = self.len + 1;
        proof {
            assert(final(self)@ =~= old(self)@.push((key, value)));
            let n = old(self)@.len() as int;
            assert(final(self)@[n] == (key, value));
            assert forall|i: int| 0 <= i < final(self)@.len() implies final(self).min
                <= #[trigger] final(self)@[i].0 by {
                if i < old(self)@.len() {
                    assert(old(self)@[i].0 == final(self)@[i].0);
                }
            }
            if key < old(self).min {
                assert(final(self)@[n].0 == self.min);
            } else if n == 0 {
                assert(key == EMPTY_MIN);
                assert(final(self)@[0].0 == self.min);
            } else {
                let i = choose|i: int| 0 <= i < old(self)@.len() && old(self).spec_min() == old(
                    self,
                )@[i].0;
                assert(final(self)@[i].0 == self.min);
            }
        }
        Ok(())
    }

    /// Remove the entry at `index` by moving the last entry into its place.
    /// `min` is left alone, so only the structural invariant survives;
    /// `recompute_min` restores the rest.
    pub fn swap_remove(&mut self, index: usize) -> (entry: (u32, T))
        requires
            old(self).wf_slots(),
            index < old(self)@.len(),
        ensures
            final(self).wf_slots(),
            entry == old(self)@[index as int],
            final(self)@ == old(self)@.update(index as int, old(self)@.last()).drop_last(),
            final(self).spec_min() == old(self).spec_min(),
    {
        let last = self.len - 1;
        let entry: (u32, T);
        if index == last {
            let slot = &mut self.data[index];
            entry = slot.take().unwrap();
        } else {
            let slot_last = &mut self.data[last];
            let moved = slot_last.take();
            let slot = &mut self.data[index];
            let prev = slot.take();
            self.data[index] = moved;
            entry = prev.unwrap();
        }
        self.len = last;
        proof {
            assert(final(self)@ =~= old(self)@.update(index as int, old(self)@.last()).drop_last());
        }
        entry
    }

    /// Scan every slot and reset `min` to the smallest key present, or to
    /// the sentinel when the bag is empty.
    pub fn recompute_min(&mut self)
        requires
            old(self).wf_slots(),
        ensures
            final(self).wf(),
            final(self)@ == old(self)@,
    {
        self.min = EMPTY_MIN;
        let mut i: usize = 0;
        while i < ARRAY_SIZE
            invariant
                self.wf_slots(),
                self@ == old(self)@,
                self.len == old(self).len,
                i <= ARRAY_SIZE,
                forall|j: int| 0 <= j < i && j < self@.len() ==> self.min <= #[trigger] self@[j].0,
                self.min == EMPTY_MIN || exists|j: int|
                    0 <= j < i && j < self@.len() && self.min == #[trigger] self@[j].0,
            decreases ARRAY_SIZE - i,
        {
            let key: Option<u32> = match &self.data[i] {
                Some(entry) => Some(entry.0),
                None => None,
            };
            if let Some(k) = key {
                if k < self.min {
                    self.min = k;
                    proof {
                        assert(self@[i as int].0 == self.min);
                    }
                }
            }
            i = i + 1;
        }
        proof {
            if self@.len() > 0 && self.min == EMPTY_MIN {
                // every key is at least EMPTY_MIN, the largest key there is,
                // so the minimum is attained by any entry
                assert(self@[0].0 == EMPTY_MIN);
            }
        }
    }

    /// The tracked minimum key, as the millisecond interrupt consults it.
    pub fn min_key(&self) -> (m: u32)
        ensures
            m == self.spec_min(),
    {
        self.min
    }

    /// Number of entries present.
    pub fn count(&self) -> (n: usize)
        ensures
            n == self@.len(),
    {
        self.len
    }

    /// Drain every entry whose key is strictly below `key`; the survivors
    /// keep their multiplicity and `min` is recomputed over them.
    pub fn take_less_than(&mut self, key: u32) -> (it: MinArrayIterator<T>)
        requires
            old(self).wf(),
        ensures
            final(self).wf(),
            forall|i: int| 0 <= i < final(self)@.len() ==> #[trigger] final(self)@[i].0 >= key,
            forall|i: int| 0 <= i < it@.len() ==> #[trigger] it@[i].0 < key,
            final(self)@.len() + it@.len() == old(self)@.len(),
            // every entry leaves exactly once or stays: the drain permutes
            // the bag into survivors plus drained entries
            old(self)@.to_multiset() == final(self)@.to_multiset().add(it@.to_multiset()),
            forall|e: (u32, T)|
                #![trigger old(self)@.contains(e)]
                #![trigger final(self)@.contains(e)]
                #![trigger it@.contains(e)]
                old(self)@.contains(e) <==> final(self)@.contains(e) || it@.contains(e),
    {
        let mut taken: Vec<(u32, T)> = Vec::new();
        proof {
            broadcast use vstd::seq_lib::group_to_multiset_ensures;
            broadcast use vstd::multiset::group_multiset_axioms;
            assert(taken@.to_multiset() =~= Multiset::<(u32, T)>::empty());
            assert(old(self)@.to_multiset() =~= self@.to_multiset().add(taken@.to_multiset()));
        }
        let mut i: usize = 0;
        while i < self.len
            invariant
                self.wf_slots(),
                i <= self@.len(),
                forall|j: int| 0 <= j < i ==> #[trigger] self@[j].0 >= key,
                forall|j: int| 0 <= j < taken@.len() ==> #[trigger] taken@[j].0 < key,
                self@.len() + taken@.len() == old(self)@.len(),
                old(self)@.to_multiset() == self@.to_multiset().add(taken@.to_multiset()),
                forall|e: (u32, T)|
                    #![trigger old(self)@.contains(e)]
                    #![trigger self@.contains(e)]
                    #![trigger taken@.contains(e)]
                    old(self)@.contains(e) <==> self@.contains(e) || taken@.contains(e),
            decreases self@.len() - i,
        {
            let due = match &self.data[i] {
                Some(entry) => entry.0 < key,
                None => false,
            };
            if due {
                let ghost prev = self@;
                let ghost prev_taken = taken@;
                let entry = self.swap_remove(i);
                taken.push(entry);
                proof {
                    lemma_swap_remove_keeps_entries(prev, prev_taken, self@, taken@, i as int);
                }
            } else {
                i = i + 1;
            }
        }
        self.recompute_min();
        MinArrayIterator { taken }
    }
}

/// In a well-formed bag the `min` field is the least key present, and
/// the sentinel exactly when the bag is empty.
pub proof fn lemma_min_is_minimum<T>(a: MinArray<T>)
    requires
        a.wf(),
    ensures
        forall|i: int| 0 <= i < a@.len() ==> a.spec_min() <= #[trigger] a@[i].0,
        a@.len() == 0 <==> a.spec_min() == EMPTY_MIN && !exists|i: int|
            0 <= i < a@.len() && a@[i].0 == EMPTY_MIN,
{
    if a@.len() > 0 && a.spec_min() == EMPTY_MIN {
        let i = choose|i: int| 0 <= i < a@.len() && a.spec_min() == a@[i].0;
        assert(a@[i].0 == EMPTY_MIN);
    }
}

/// Draining one entry by swap-remove and appending it to the taken list
/// preserves which entries are present across the two sequences, with
/// their multiplicities.
pub(crate) proof fn lemma_swap_remove_keeps_entries<T>(
    prev: Seq<(u32, T)>,
    prev_taken: Seq<(u32, T)>,
    cur: Seq<(u32, T)>,
    taken: Seq<(u32, T)>,
    i: int,
)
    requires
        0 <= i < prev.len(),
        cur == prev.update(i, prev.last()).drop_last(),
        taken == prev_taken.push(prev[i]),
    ensures
        cur.to_multiset().add(taken.to_multiset()) == prev.to_multiset().add(
            prev_taken.to_multiset(),
        ),
        forall|e: (u32, T)|
            #![trigger prev.contains(e)]
            #![trigger prev_taken.contains(e)]
            #![trigger cur.contains(e)]
            #![trigger taken.contains(e)]
            (prev.contains(e) || prev_taken.contains(e)) <==> cur.contains(e) || taken.contains(e),
{
    broadcast use vstd::seq_lib::group_to_multiset_ensures;
    broadcast use vstd::multiset::group_multiset_axioms;

    let updated = prev.update(i, prev.last());
    let last = prev.len() - 1;
    assert(cur =~= updated.remove(last));
    assert(updated[last] == prev.last());
    assert(updated.remove(last).to_multiset() == updated.to_multiset().remove(prev.last()));
    assert(updated.to_multiset() == prev.to_multiset().insert(prev.last()).remove(prev[i]));
    assert(prev.to_multiset().contains(prev[i]));
    assert(prev.to_multiset().contains(prev.last()));
    assert(taken.to_multiset() =~= prev_taken.to_multiset().insert(prev[i]));
    assert(cur.to_multiset().add(taken.to_multiset()) =~= prev.to_multiset().add(
        prev_taken.to_multiset(),
    ));

    assert forall|e: (u32, T)| prev.contains(e) || prev_taken.contains(e) implies cur.contains(e)
        || taken.contains(e) by {
        if prev_taken.contains(e) {
            let j = choose|j: int| 0 <= j < prev_taken.len() && prev_taken[j] == e;
            assert(taken[j] == e);
        } else {
            let j = choose|j: int| 0 <= j < prev.len() && prev[j] == e;
            if j == i {
                assert(taken[taken.len() - 1] == e);
            } else if j == prev.len() - 1 {
                assert(cur[i] == e);
            } else {
                assert(cur[j] == e);
            }
        }
    }
    assert forall|e: (u32, T)| cur.contains(e) || taken.contains(e) implies prev.contains(e)
        || prev_taken.contains(e) by {
        if cur.contains(e) {
            let j = choose|j: int| 0 <= j < cur.len() && cur[j] == e;
            if j == i {
                assert(prev[prev.len() - 1] == e);
            } else {
                assert(prev[j] == e);
            }
        } else {
            let j = choose|j: int| 0 <= j < taken.len() && taken[j] == e;
            if j == taken.len() - 1 {
                assert(prev[i] == e);
            } else {
                assert(prev_taken[j] == e);
            }
        }
    }
}

/// The entries drained by `MinArray::take_less_than`, handed out in order.
pub struct MinArrayIterator<T> {
    taken: Vec<(u32, T)>,
}

impl<T> View for MinArrayIterator<T> {
    type V = Seq<(u32, T)>;

    closed spec fn view(&self) -> Seq<(u32, T)> {
        self.taken@
    }
}

impl<T> MinArrayIterator<T> {
    /// The value of the next drained entry, or `None` once exhausted.
    pub fn next(&mut self) -> (r: Option<T>)
        ensures
            old(self)@.len() > 0 ==> {
                &&& r == Some(old(self)@[0].1)
                &&& final(self)@ == old(self)@.drop_first()
            },
            old(self)@.len() == 0 ==> {
                &&& r is None
                &&& final(self)@ == old(self)@
            },
    {
        if self.taken.len() == 0 {
            None
        } else {
            let entry = self.taken.remove(0);
            Some(entry.1)
        }
    }

    pub fn len(&self) -> (n: usize)
        ensures
            n == self@.len(),
    {
        self.taken.len()
    }
}

} // verus!
