//! The shared record of mount points that never came up, and the
//! abort-on-total-failure policy built on it.
//!
//! The record lives inside the shared supervision state, which the
//! surrounding program guards with a mutual exclusion lock; every operation
//! here is a single atomic step under that lock, so the decision "all
//! enabled mount points have failed" is evaluated together with the insert
//! that triggered it.

use vstd::prelude::*;
use vstd::set_lib::lemma_len_subset;

verus! {

/// The set of mount-point names whose start attempt failed.
///
/// A name is added at most once and never removed: the set grows
/// monotonically for the life of the process.
pub struct FailedSet {
    names: Vec<String>,
}

impl View for FailedSet {
    type V = Set<Seq<char>>;

    closed spec fn view(&self) -> Set<Seq<char>> {
        self.name_seq().to_set()
    }
}

impl FailedSet {
    /// The recorded names in insertion order.
    pub closed spec fn name_seq(self) -> Seq<Seq<char>> {
        self.names@.map_values(|s: String| s@)
    }

    /// No name is recorded twice.
    pub closed spec fn wf(self) -> bool {
        self.name_seq().no_duplicates()
    }

    /// The empty failure record.
    pub fn new() -> (s: FailedSet)
        ensures
            s@ =~= Set::<Seq<char>>::empty(),
            s.wf(),
    {
        let s = FailedSet { names: Vec::new() };
        proof {
            assert(s.name_seq() =~= Seq::<Seq<char>>::empty());
            assert(s.name_seq().to_set() =~= Set::<Seq<char>>::empty());
        }
        s
    }

    /// Membership test.
    pub fn contains(&self, name: &String) -> (r: bool)
        ensures
            r == self@.contains(name@),
    {
        let mut i: usize = 0;
        while i < self.names.len()
            invariant
                i <= self.names@.len(),
                forall|j: int| 0 <= j < i ==> self.name_seq()[j] != name@,
            decreases self.names@.len() - i,
        {
            if self.names[i] == *name {
                proof {
                    assert(self.name_seq()[i as int] == name@);
                }
                return true;
            }
            i = i + 1;
        }
        proof {
            if self@.contains(name@) {
                let j = choose|j: int|
                    0 <= j < self.name_seq().len() && self.name_seq()[j] == name@;
                assert(false);
            }
        }
        false
    }

    /// How many distinct names have been recorded.
    pub fn len(&self) -> (n: usize)
        requires
            self.wf(),
        ensures
            n == self@.len(),
    {
        proof {
            self.name_seq().unique_seq_to_set();
        }
        self.names.len()
    }

    /// Insert-if-absent. Returns whether this call recorded a new failure:
    /// inserting a name that is already present changes nothing, so a
    /// repeated failure report never double-counts.
    pub fn insert(&mut self, name: String) -> (is_new: bool)
        requires
            old(self).wf(),
        ensures
            final(self).wf(),
            is_new == !old(self)@.contains(name@),
            final(self)@ =~= old(self)@.insert(name@),
            final(self)@.len() == old(self)@.len() + (if is_new { 1int } else { 0 }),
    {
        proof {
            old(self).name_seq().unique_seq_to_set();
        }
        if self.contains(&name) {
            proof {
                assert(self@ =~= old(self)@.insert(name@));
            }
            false
        } else {
            self.names.push(name);
            proof {
                let sq_new = self.name_seq();
                let sq_old = old(self).name_seq();
                assert(sq_new =~= sq_old.push(name@));
                assert forall|x: Seq<char>| #[trigger] sq_new.contains(x) implies
                    old(self)@.insert(name@).contains(x) by {
                    let i = choose|i: int| 0 <= i < sq_new.len() && sq_new[i] == x;
                    if i < sq_old.len() {
                        assert(sq_old[i] == x);
                        assert(sq_old.contains(x));
                    } else {
                        assert(x == name@);
                    }
                }
                assert forall|x: Seq<char>| #[trigger] old(self)@.insert(name@).contains(x)
                    implies sq_new.contains(x) by {
                    if x == name@ {
                        assert(sq_new[sq_old.len() as int] == x);
                    } else {
                        assert(sq_old.contains(x));
                        let i = choose|i: int| 0 <= i < sq_old.len() && sq_old[i] == x;
                        assert(sq_new[i] == x);
                    }
                }
                assert(self@ =~= old(self)@.insert(name@));
                assert(self.wf());
                self.name_seq().unique_seq_to_set();
            }
            true
        }
    }
}

/// Inserting a name a second time leaves the failure record — and hence its
/// cardinality, the count held against the all-failed threshold — unchanged.
pub proof fn lemma_insert_idempotent(failed: Set<Seq<char>>, name: Seq<char>)
    requires
        failed.finite(),
    ensures
        failed.insert(name).insert(name) =~= failed.insert(name),
        failed.insert(name).insert(name).len() == failed.insert(name).len(),
{
}

/// A set that contains a whole finite set and at least matches its size is
/// that set: this is what lets the aggregator compare counts instead of sets.
pub proof fn lemma_subset_full(part: Set<Seq<char>>, whole: Set<Seq<char>>)
    requires
        whole.finite(),
        part.subset_of(whole),
        part.len() >= whole.len(),
    ensures
        part =~= whole,
{
    lemma_len_subset(part, whole);
    if exists|x: Seq<char>| whole.contains(x) && !part.contains(x) {
        let x = choose|x: Seq<char>| whole.contains(x) && !part.contains(x);
        part.lemma_subset_not_in_lt(whole, x);
    }
}

} // verus!
