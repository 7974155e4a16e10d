use vstd::prelude::*;
use std::collections::HashMap;
use crate::structure::{PlantStructure, generated};

verus! {

broadcast use vstd::std_specs::hash::group_hash_axioms;

/// Memo of generated structures, keyed by seed. Entries are never evicted.
pub struct StructureCache {
    entries: HashMap<u64, PlantStructure>,
}

impl StructureCache {
    /// Every entry is the well-formed structure that its seed generates.
    pub closed spec fn wf(&self) -> bool {
        forall|k: u64|
            #[trigger] self.entries@.contains_key(k) ==> self.entries@[k]@ == generated(k)
                && self.entries@[k]@.wf()
    }

    /// Seeds whose structure is held.
    pub closed spec fn seeds(&self) -> Set<u64> {
        self.entries@.dom()
    }

    /// An empty cache.
    pub fn new() -> (r: Self)
        ensures
            r.wf(),
            r.seeds() == Set::<u64>::empty(),
    {
        StructureCache { entries: HashMap::new() }
    }

    /// The structure of `seed`, generated on the first request and held
    /// from then on.
    pub fn get_or_generate(&mut self, seed: u64) -> (r: PlantStructure)
        requires
            old(self).wf(),
        ensures
            final(self).wf(),
            final(self).seeds() == old(self).seeds().insert(seed),
            r@ == generated(seed),
            r@.wf(),
    {
        match self.entries.get(&seed) {
            Some(s) => {
                let r = s.duplicate();
                proof {
                    assert(self.entries@.insert(seed, self.entries@[seed]) =~= self.entries@);
                }
                r
            },
            None => {
                let s = PlantStructure::generate(seed);
                let r = s.duplicate();
                self.entries.insert(seed, s);
                r
            },
        }
    }

    /// Whether the structure of `seed` is held.
    pub fn contains(&self, seed: u64) -> (r: bool)
        requires
            self.wf(),
        ensures
            r == self.seeds().contains(seed),
    {
        self.entries.contains_key(&seed)
    }
}

} // verus!
