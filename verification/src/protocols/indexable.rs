//! Key-to-index lookup over a current and a previous index map.

use vstd::prelude::*;

verus! {

/// Two-generation index bookkeeping: a current and a previous map from keys
/// to indices, selected by a flag.
pub trait Indexable: Sized {
    /// The index stored for `key` in the selected generation, if any.
    spec fn spec_index(&self, key: usize, current: bool) -> Option<usize>;

    /// Gets the index for `key` from the current or the previous index map,
    /// depending on `current`; `None` when the key is absent there.
    fn get_index(&self, key: &usize, current: bool) -> (r: Option<usize>)
        ensures
            r == self.spec_index(*key, current),
    ;

    /// Sets the index for `key` in the current or the previous index map,
    /// depending on `current`, overwriting any index stored for the key
    /// there.  Every other key, and the whole other generation, keeps its
    /// stored index.
    fn set_index(&mut self, key: usize, index: usize, current: bool)
        ensures
            final(self).spec_index(key, current) == Some(index),
            forall|k: usize, generation: bool|
                k != key || generation != current ==> #[trigger] final(self).spec_index(
                    k,
                    generation,
                ) == old(self).spec_index(k, generation),
    ;
}

} // verus!
