//! Dense identity indexing.
//!
//! An [`IdIndexer`] maps sparse external identifiers to contiguous 0-based
//! row indices.  Insertion order determines the next free index; removal is
//! not supported, so indices always form the gapless range `[0, len)`.

use vstd::prelude::*;

verus! {

/// Whether `id` occurs in the id sequence.
pub open spec fn seq_contains(s: Seq<i64>, id: i64) -> bool {
    exists|i: int| 0 <= i < s.len() && s[i] == id
}

/// The index of `id` in the id sequence, `None` if absent.
pub open spec fn seq_index_of(s: Seq<i64>, id: i64) -> Option<int> {
    if seq_contains(s, id) {
        Some(choose|i: int| 0 <= i < s.len() && s[i] == id)
    } else {
        None
    }
}

/// All elements of the id sequence are distinct.
pub open spec fn seq_distinct(s: Seq<i64>) -> bool {
    forall|i: int, j: int| 0 <= i < j < s.len() ==> #[trigger] s[i] != #[trigger] s[j]
}

/// One-to-one mapping from external ids to dense indices.  The id stored at
/// position `i` is the id with internal index `i`.
pub struct IdIndexer {
    ids: Vec<i64>,
}

impl IdIndexer {
    /// The sequence of external ids in insertion order.
    pub closed spec fn view(&self) -> Seq<i64> {
        self.ids@
    }

    /// All stored ids are distinct.
    pub open spec fn wf(&self) -> bool {
        seq_distinct(self@)
    }

    /// Whether an id has been assigned an index.
    pub open spec fn spec_contains(&self, id: i64) -> bool {
        seq_contains(self@, id)
    }

    /// The index of an id, `None` if the id was never inserted.
    pub open spec fn spec_index_of(&self, id: i64) -> Option<int> {
        seq_index_of(self@, id)
    }

    /// A `Some` index is in range and names the id's position.
    pub proof fn lemma_index_of_valid(&self, id: i64)
        requires
            self.spec_index_of(id) is Some,
        ensures
            0 <= self.spec_index_of(id).unwrap() < self@.len(),
            self@[self.spec_index_of(id).unwrap()] == id,
    {
    }

    pub fn new() -> (r: IdIndexer)
        ensures
            r@ == Seq::<i64>::empty(),
            r.wf(),
    {
        IdIndexer { ids: Vec::new() }
    }

    /// How many ids are indexed; also the next free index.
    pub fn len(&self) -> (n: usize)
        ensures
            n == self@.len(),
    {
        self.ids.len()
    }

    pub fn contains(&self, id: i64) -> (r: bool)
        ensures
            r == self.spec_contains(id),
    {
        let n = self.ids.len();
        let mut i: usize = 0;
        while i < n
            invariant
                0 <= i <= n,
                n == self@.len(),
                forall|j: int| 0 <= j < i ==> self@[j] != id,
            decreases n - i,
        {
            if self.ids[i] == id {
                return true;
            }
            i = i + 1;
        }
        false
    }

    /// The dense index of `id`, `None` if unknown.
    pub fn index_of(&self, id: i64) -> (r: Option<usize>)
        requires
            self.wf(),
        ensures
            r matches Some(i) ==> self.spec_index_of(id) == Some(i as int),
            r is None ==> self.spec_index_of(id) is None,
    {
        let n = self.ids.len();
        let mut i: usize = 0;
        while i < n
            invariant
                0 <= i <= n,
                n == self@.len(),
                self.wf(),
                forall|j: int| 0 <= j < i ==> self@[j] != id,
            decreases n - i,
        {
            if self.ids[i] == id {
                proof {
                    assert(self.spec_contains(id));
                    let w = choose|j: int| 0 <= j < self@.len() && self@[j] == id;
                    assert(w == i as int);
                }
                return Some(i);
            }
            i = i + 1;
        }
        None
    }

    /// Assigns the next free contiguous index to a fresh id.
    pub fn insert(&mut self, id: i64) -> (idx: usize)
        requires
            old(self).wf(),
            !old(self).spec_contains(id),
        ensures
            final(self)@ == old(self)@.push(id),
            idx == old(self)@.len(),
            final(self).wf(),
            final(self).spec_index_of(id) == Some(idx as int),
    {
        let idx = self.ids.len();
        self.ids.push(id);
        proof {
            assert(self@[idx as int] == id);
            assert forall|j: int| 0 <= j < idx implies self@[j] != id by {
                if self@[j] == id {
                    assert(old(self)@[j] == id);
                    assert(old(self).spec_contains(id));
                }
            }
            assert(self.spec_contains(id));
            let w = choose|j: int| 0 <= j < self@.len() && self@[j] == id;
            assert(w == idx as int);
        }
        idx
    }
}

} // verus!
