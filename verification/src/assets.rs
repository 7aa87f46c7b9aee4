//! The keyed asset collection the engine resolves meshes and materials
//! against.
//!
//! Loading itself (file parsing, upload) happens outside the core: here the
//! collection is the set of keys known to be loaded. An emitter referencing
//! a key outside this set cannot be constructed.

use vstd::prelude::*;

verus! {

/// The set of asset keys currently loaded.
#[derive(Debug)]
pub struct AssetCollection {
    pub keys: Vec<String>,
}

impl AssetCollection {
    /// Whether a key is loaded.
    pub open spec fn spec_contains(&self, key: Seq<char>) -> bool {
        exists|i: int| 0 <= i < self.keys@.len() && self.keys@[i]@ == key
    }

    /// An empty collection: nothing loaded yet.
    pub fn new() -> (r: AssetCollection)
        ensures
            r.keys@.len() == 0,
    {
        AssetCollection { keys: Vec::new() }
    }

    /// Records that an asset was loaded under a key.
    pub fn insert(&mut self, key: String)
        ensures
            final(self).keys@ == old(self).keys@.push(key),
    {
        self.keys.push(key);
    }

    /// Whether a key is loaded.
    pub fn contains(&self, key: &String) -> (r: bool)
        ensures
            r == self.spec_contains(key@),
    {
        let mut i: usize = 0;
        while i < self.keys.len()
            invariant
                i <= self.keys@.len(),
                forall|j: int| 0 <= j < i ==> self.keys@[j]@ != key@,
            decreases self.keys@.len() - i,
        {
            if self.keys[i].eq(key) {
                return true;
            }
            i = i + 1;
        }
        false
    }
}

} // verus!
