//! Collective access to a vector of observations.

use vstd::prelude::*;

use crate::protocols::observable::Observable;
use crate::protocols::observable::ObservableCollection;

verus! {

impl<T: Observable> ObservableCollection<T> for Vec<T> {
    closed spec fn observable_items(&self) -> Seq<T> {
        self@
    }

    fn len(&self) -> usize {
        Vec::len(self)
    }

    fn is_empty(&self) -> bool {
        Vec::len(self) == 0
    }

    fn get_all_items(&self) -> (v: Vec<&T>) {
        let n = Vec::len(self);
        let mut v: Vec<&T> = Vec::new();
        let mut i: usize = 0;
        while i < n
            invariant
                n == self@.len(),
                i <= n,
                v@.len() == i,
                forall|j: int| 0 <= j < i ==> *(#[trigger] v@[j]) == self@[j],
            decreases n - i,
        {
            v.push(&self[i]);
            i += 1;
        }
        v
    }
}

} // verus!
