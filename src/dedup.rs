use std::collections::HashSet;
use vstd::prelude::*;

verus! {

broadcast use vstd::std_specs::hash::group_hash_axioms;

/// The set of fingerprints seen so far. It only grows: nothing is ever
/// removed, and nothing bounds its size.
pub struct DedupIndex {
    seen: HashSet<u64>,
}

impl View for DedupIndex {
    type V = Set<u64>;

    closed spec fn view(&self) -> Set<u64> {
        self.seen@
    }
}

impl DedupIndex {
    pub fn new() -> (r: DedupIndex)
        ensures
            r@ == Set::<u64>::empty(),
    {
        DedupIndex { seen: HashSet::new() }
    }

    /// Records `fp` and reports whether it had been recorded before, as one
    /// step: `true` for a duplicate, `false` for a novel fingerprint.
    pub fn check_and_mark(&mut self, fp: u64) -> (r: bool)
        ensures
            r == old(self)@.contains(fp),
            final(self)@ == old(self)@.insert(fp),
    {
        !self.seen.insert(fp)
    }

    pub fn contains(&self, fp: u64) -> (r: bool)
        ensures
            r == self@.contains(fp),
    {
        self.seen.contains(&fp)
    }
}

} // verus!
