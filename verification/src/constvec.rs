//! A fixed-capacity vector: a bank of option slots plus a length counter.
//! The firmware has no heap, so every container is a fixed-size bank like
//! this one.  A slot is occupied exactly when it lies below the length;
//! the view of the vector is that prefix of live elements.

use vstd::prelude::*;

verus! {

pub const CAPACITY: usize = 8;

pub struct ConstVec<T> {
    data: Vec<Option<T>>,
    len: usize,
}

impl<T> View for ConstVec<T> {
    type V = Seq<T>;

    closed spec fn view(&self) -> Seq<T> {
        Seq::new(self.len as nat, |i: int| self.data@[i]->0)
    }
}

impl<T> ConstVec<T> {
    /// The raw slots, the empty ones past the length included.
    pub closed spec fn slots(self) -> Seq<Option<T>> {
        self.data@
    }

    pub open spec fn wf(self) -> bool {
        &&& self.slots().len() == CAPACITY
        &&& self@.len() <= CAPACITY
        &&& forall|i: int| 0 <= i < CAPACITY ==> (self.slots()[i] is Some <==> i < self@.len())
    }

    pub fn new() -> (v: ConstVec<T>)
        ensures
            v.wf(),
            v@ == Seq::<T>::empty(),
            forall|i: int| 0 <= i < CAPACITY ==> v.slots()[i] is None,
    {
        let mut data: Vec<Option<T>> = Vec::new();
        let mut i: usize = 0;
        while i < CAPACITY
            invariant
                i <= CAPACITY,
                data@.len() == i,
                forall|j: int| 0 <= j < i ==> data@[j] is None,
            decreases CAPACITY - i,
        {
            data.push(None);
            i = i + 1;
        }
        let v = ConstVec { data, len: 0 };
        proof {
            assert(v@ =~= Seq::<T>::empty());
        }
        v
    }

    pub fn len(&self) -> (n: usize)
        ensures
            n == self@.len(),
    {
        self.len
    }

    pub fn capacity(&self) -> (n: usize)
        requires
            self.wf(),
        ensures
            n == CAPACITY,
    {
        self.data.len()
    }

    /// Append an element; a full vector hands the element back.
    pub fn push(&mut self, el: T) -> (r: Result<(), T>)
        requires
            old(self).wf(),
        ensures
            final(self).wf(),
            old(self)@.len() < CAPACITY ==> {
                &&& r is Ok
                &&& final(self)@ == old(self)@.push(el)
            },
            old(self)@.len() == CAPACITY ==> {
                &&& r == Result::<(), T>::Err(el)
                &&& *final(self) == *old(self)
            },
    {
        if self.len >= CAPACITY {
            return Err(el);
        }
        self.data[self.len] = Some(el);
        self.len = self.len + 1;
        proof {
            assert(final(self)@ =~= old(self)@.push(el));
        }
        Ok(())
    }

    /// Read one slot; it is occupied exactly when `id` lies below the
    /// length.
    pub fn get(&self, id: usize) -> (r: &Option<T>)
        requires
            self.wf(),
            id < CAPACITY,
        ensures
            *r == self.slots()[id as int],
            id < self@.len() ==> *r == Some(self@[id as int]),
            id >= self@.len() ==> *r is None,
    {
        &self.data[id]
    }

    /// Remove and return the element at `index`, moving the last live
    /// element into its place.
    pub fn swap_remove(&mut self, index: usize) -> (value: T)
        requires
            old(self).wf(),
            index < old(self)@.len(),
        ensures
            final(self).wf(),
            value == old(self)@[index as int],
            final(self)@ == old(self)@.update(index as int, old(self)@.last()).drop_last(),
    {
        let last = self.len - 1;
        let value: T;
        if index == last {
            let slot = &mut self.data[index];
            value = slot.take().unwrap();
        } else {
            let slot_last = &mut self.data[last];
            let moved = slot_last.take();
            let slot = &mut self.data[index];
            let prev = slot.take();
            self.data[index] = moved;
            value = prev.unwrap();
        }
        self.len = last;
        proof {
            assert(final(self)@ =~= old(self)@.update(index as int, old(self)@.last()).drop_last());
        }
        value
    }

    /// The underlying slot bank, for iteration.
    pub fn iter(&self) -> (r: &Vec<Option<T>>)
        ensures
            r@ == self.slots(),
    {
        &self.data
    }
}

} // verus!
