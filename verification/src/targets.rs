//! The set of function indices chosen for snipping.

use vstd::prelude::*;

verus! {

/// Whether `i` is one of the indices in `order`.
pub open spec fn occurs(order: Seq<usize>, i: int) -> bool {
    exists|k: int| 0 <= k < order.len() && (#[trigger] order[k]) == i
}

/// A set of function indices. Each index is held once; the order in which
/// they were added is kept.
#[derive(Clone, Debug, PartialEq, Eq)]
pub struct TargetSet {
    indices: Vec<usize>,
}

impl TargetSet {
    /// The indices in the order in which they were added.
    pub closed spec fn order(&self) -> Seq<usize> {
        self.indices@
    }

    /// No index is held twice.
    pub open spec fn wf(&self) -> bool {
        forall|i: int, j: int|
            0 <= i < j < self.order().len() ==> self.order()[i] != self.order()[j]
    }

    /// The empty set.
    pub fn new() -> (t: TargetSet)
        ensures
            t.wf(),
            t.order() == Seq::<usize>::empty(),
            t@ == Set::<int>::empty(),
    {
        let t = TargetSet { indices: Vec::new() };
        assert(t@ =~= Set::<int>::empty());
        t
    }

    /// Whether `index` is in the set.
    pub fn contains(&self, index: usize) -> (b: bool)
        ensures
            b == self@.contains(index as int),
    {
        let mut k: usize = 0;
        while k < self.indices.len()
            invariant
                k <= self.indices@.len(),
                forall|j: int| 0 <= j < k ==> self.indices@[j] != index,
            decreases self.indices@.len() - k,
        {
            if self.indices[k] == index {
                return true;
            }
            k += 1;
        }
        false
    }

    /// Adds `index`; returns whether it was new.
    pub fn insert(&mut self, index: usize) -> (added: bool)
        requires
            old(self).wf(),
        ensures
            final(self).wf(),
            final(self)@ == old(self)@.insert(index as int),
            added == !old(self)@.contains(index as int),
            added ==> final(self).order() == old(self).order().push(index),
            !added ==> final(self).order() == old(self).order(),
    {
        if self.contains(index) {
            assert(self@ =~= old(self)@.insert(index as int));
            false
        } else {
            self.indices.push(index);
            assert(self@ =~= old(self)@.insert(index as int)) by {
                assert forall|i: int| self@.contains(i) <==> old(self)@.insert(
                    index as int,
                ).contains(i) by {
                    if occurs(old(self).order(), i) {
                        let j = choose|j: int|
                            0 <= j < old(self).order().len() && old(self).order()[j] == i;
                        assert(self.order()[j] == i);
                    }
                    if i == index {
                        assert(self.order()[self.order().len() - 1] == i);
                    }
                }
            }
            true
        }
    }

    /// How many indices the set holds.
    pub fn len(&self) -> (n: usize)
        ensures
            n == self.order().len(),
    {
        self.indices.len()
    }

    /// Whether the set holds nothing.
    pub fn is_empty(&self) -> (b: bool)
        ensures
            b == (self.order().len() == 0),
            b == (self@ == Set::<int>::empty()),
    {
        let b = self.indices.len() == 0;
        proof {
            if b {
                assert(self@ =~= Set::<int>::empty());
            } else {
                assert(self@.contains(self.order()[0] as int));
            }
        }
        b
    }

    /// The index that was added as the `k`-th.
    pub fn get(&self, k: usize) -> (index: usize)
        requires
            k < self.order().len(),
        ensures
            index == self.order()[k as int],
            self@.contains(index as int),
    {
        self.indices[k]
    }

    /// The indices in the order in which they were added.
    pub fn to_vec(&self) -> (v: Vec<usize>)
        ensures
            v@ == self.order(),
    {
        self.indices.clone()
    }
}

impl View for TargetSet {
    type V = Set<int>;

    open spec fn view(&self) -> Set<int> {
        Set::new(|i: int| occurs(self.order(), i))
    }
}

} // verus!
