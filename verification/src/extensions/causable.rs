//! Collective causal reasoning over a vector of causes.

use vstd::prelude::*;

use crate::protocols::causable::Causable;
use crate::protocols::causable::CausableReasoning;
use crate::protocols::causable::count_active;
use crate::protocols::causable::lemma_count_active_bounds;
use crate::protocols::causable::lemma_count_active_take_step;
use crate::types::numerical::NumericalValue;

verus! {

impl<T: Causable> CausableReasoning<T> for Vec<T> {
    closed spec fn causable_items(&self) -> Seq<T> {
        self@
    }

    fn len(&self) -> usize {
        Vec::len(self)
    }

    fn is_empty(&self) -> bool {
        Vec::len(self) == 0
    }

    fn get_all_causes_true(&self) -> (r: bool) {
        let n = Vec::len(self);
        let mut i: usize = 0;
        while i < n
            invariant
                n == self@.len(),
                i <= n,
                forall|j: int| 0 <= j < i ==> (#[trigger] self@[j]).spec_active(),
            decreases n - i,
        {
            if !self[i].is_active() {
                proof {
                    assert(!(#[trigger] self.causable_items()[i as int]).spec_active());
                }
                return false;
            }
            i += 1;
        }
        true
    }

    fn number_active(&self) -> (n: NumericalValue) {
        let count = count_active_in(self);
        proof {
            lemma_count_active_bounds(self@);
        }
        NumericalValue::from_hundredths((count as i64) * 100)
    }

    fn percent_active(&self) -> (p: NumericalValue) {
        let n = Vec::len(self);
        if n == 0 {
            return NumericalValue::zero();
        }
        let count = count_active_in(self);
        proof {
            lemma_count_active_bounds(self@);
        }
        NumericalValue::from_hundredths(((count as i64) * 10000) / (n as i64))
    }

    fn get_all_items(&self) -> (v: Vec<&T>) {
        collect_refs(self)
    }

    fn to_vec(&self) -> (v: Vec<&T>) {
        collect_refs(self)
    }
}

/// How many causes in `causes` are active.
fn count_active_in<T: Causable>(causes: &Vec<T>) -> (count: usize)
    ensures
        count == count_active(causes@),
        count <= causes@.len(),
{
    let n = causes.len();
    let mut count: usize = 0;
    let mut i: usize = 0;
    while i < n
        invariant
            n == causes@.len(),
            i <= n,
            count == count_active(causes@.take(i as int)),
            count <= i,
        decreases n - i,
    {
        proof {
            lemma_count_active_take_step(causes@, i as int);
        }
        if causes[i].is_active() {
            count += 1;
        }
        i += 1;
    }
    proof {
        assert(causes@.take(n as int) =~= causes@);
    }
    count
}

/// Every element of `items`, in order, by reference.
fn collect_refs<T>(items: &Vec<T>) -> (v: Vec<&T>)
    ensures
        v@.len() == items@.len(),
        forall|i: int| 0 <= i < v@.len() ==> *(#[trigger] v@[i]) == items@[i],
{
    let n = items.len();
    let mut v: Vec<&T> = Vec::new();
    let mut i: usize = 0;
    while i < n
        invariant
            n == items@.len(),
            i <= n,
            v@.len() == i,
            forall|j: int| 0 <= j < i ==> *(#[trigger] v@[j]) == items@[j],
        decreases n - i,
    {
        v.push(&items[i]);
        i += 1;
    }
    v
}

} // verus!
