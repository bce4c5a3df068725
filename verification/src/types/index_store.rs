//! Two-generation key-to-index bookkeeping.

use std::collections::HashMap;
use vstd::prelude::*;

use crate::protocols::indexable::Indexable;

verus! {

broadcast use vstd::std_specs::hash::group_hash_axioms;

/// A current and a previous map from keys to indices, as `Indexable` asks:
/// lookups and updates address one generation, selected by a flag.
#[derive(Debug, Clone)]
pub struct IndexStore {
    current: HashMap<usize, usize>,
    previous: HashMap<usize, usize>,
}

impl IndexStore {
    /// The selected generation's map.
    pub closed spec fn spec_generation(&self, current: bool) -> Map<usize, usize> {
        if current {
            self.current@
        } else {
            self.previous@
        }
    }

    /// Empty bookkeeping: nothing indexed in either generation.
    pub fn new() -> (s: IndexStore)
        ensures
            forall|key: usize, current: bool| s.spec_index(key, current) is None,
    {
        IndexStore { current: HashMap::new(), previous: HashMap::new() }
    }
}

impl Indexable for IndexStore {
    closed spec fn spec_index(&self, key: usize, current: bool) -> Option<usize> {
        if self.spec_generation(current).contains_key(key) {
            Some(self.spec_generation(current)[key])
        } else {
            None
        }
    }

    fn get_index(&self, key: &usize, current: bool) -> (r: Option<usize>) {
        let found = if current {
            self.current.get(key)
        } else {
            self.previous.get(key)
        };
        match found {
            Some(index) => Some(*index),
            None => None,
        }
    }

    fn set_index(&mut self, key: usize, index: usize, current: bool) {
        if current {
            self.current.insert(key, index);
        } else {
            self.previous.insert(key, index);
        }
    }
}

} // verus!
