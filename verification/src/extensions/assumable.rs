//! Collective assumption testing over a vector of assumptions.

use vstd::prelude::*;

use crate::protocols::assumable::Assumable;
use crate::protocols::assumable::AssumableReasoning;
use crate::protocols::assumable::count_invalid;
use crate::protocols::assumable::count_tested;
use crate::protocols::assumable::count_untested;
use crate::protocols::assumable::count_valid;
use crate::protocols::assumable::lemma_count_invalid_take_step;
use crate::protocols::assumable::lemma_count_tested_take_step;
use crate::protocols::assumable::lemma_count_untested_take_step;
use crate::protocols::assumable::lemma_count_valid_bounds;
use crate::protocols::assumable::lemma_count_valid_take_step;
use crate::types::numerical::NumericalValue;

verus! {

impl<T: Assumable> AssumableReasoning<T> for Vec<T> {
    closed spec fn assumable_items(&self) -> Seq<T> {
        self@
    }

    fn len(&self) -> usize {
        Vec::len(self)
    }

    fn is_empty(&self) -> bool {
        Vec::len(self) == 0
    }

    fn all_assumptions_tested(&self) -> (r: bool) {
        let n = Vec::len(self);
        let mut i: usize = 0;
        while i < n
            invariant
                n == self@.len(),
                i <= n,
                forall|j: int| 0 <= j < i ==> (#[trigger] self@[j]).spec_tested(),
            decreases n - i,
        {
            if !self[i].assumption_tested() {
                proof {
                    assert(!(#[trigger] self.assumable_items()[i as int]).spec_tested());
                }
                return false;
            }
            i += 1;
        }
        true
    }

    fn all_assumptions_valid(&self) -> (r: bool) {
        let n = Vec::len(self);
        let mut i: usize = 0;
        while i < n
            invariant
                n == self@.len(),
                i <= n,
                forall|j: int| 0 <= j < i ==> (#[trigger] self@[j]).spec_valid(),
            decreases n - i,
        {
            if !self[i].assumption_valid() {
                proof {
                    assert(!(#[trigger] self.assumable_items()[i as int]).spec_valid());
                }
                return false;
            }
            i += 1;
        }
        true
    }

    fn percent_assumption_valid(&self) -> (p: NumericalValue) {
        let n = Vec::len(self);
        if n == 0 {
            return NumericalValue::zero();
        }
        let valid = self.get_all_valid_assumptions();
        let count = valid.len();
        proof {
            lemma_count_valid_bounds(self@);
        }
        NumericalValue::from_hundredths(((count as i64) * 10000) / (n as i64))
    }

    fn get_all_valid_assumptions(&self) -> (v: Vec<&T>) {
        let n = Vec::len(self);
        let mut v: Vec<&T> = Vec::new();
        let mut i: usize = 0;
        while i < n
            invariant
                n == self@.len(),
                i <= n,
                v@.len() == count_valid(self@.take(i as int)),
                forall|j: int| 0 <= j < v@.len() ==> (*(#[trigger] v@[j])).spec_valid(),
            decreases n - i,
        {
            proof {
                lemma_count_valid_take_step(self@, i as int);
            }
            if self[i].assumption_valid() {
                v.push(&self[i]);
            }
            i += 1;
        }
        proof {
            assert(self@.take(n as int) =~= self@);
        }
        v
    }

    fn get_all_invalid_assumptions(&self) -> (v: Vec<&T>) {
        let n = Vec::len(self);
        let mut v: Vec<&T> = Vec::new();
        let mut i: usize = 0;
        while i < n
            invariant
                n == self@.len(),
                i <= n,
                v@.len() == count_invalid(self@.take(i as int)),
                forall|j: int| 0 <= j < v@.len() ==> !(*(#[trigger] v@[j])).spec_valid(),
            decreases n - i,
        {
            proof {
                lemma_count_invalid_take_step(self@, i as int);
            }
            if !self[i].assumption_valid() {
                v.push(&self[i]);
            }
            i += 1;
        }
        proof {
            assert(self@.take(n as int) =~= self@);
        }
        v
    }

    fn get_all_tested_assumptions(&self) -> (v: Vec<&T>) {
        let n = Vec::len(self);
        let mut v: Vec<&T> = Vec::new();
        let mut i: usize = 0;
        while i < n
            invariant
                n == self@.len(),
                i <= n,
                v@.len() == count_tested(self@.take(i as int)),
                forall|j: int| 0 <= j < v@.len() ==> (*(#[trigger] v@[j])).spec_tested(),
            decreases n - i,
        {
            proof {
                lemma_count_tested_take_step(self@, i as int);
            }
            if self[i].assumption_tested() {
                v.push(&self[i]);
            }
            i += 1;
        }
        proof {
            assert(self@.take(n as int) =~= self@);
        }
        v
    }

    fn get_all_untested_assumptions(&self) -> (v: Vec<&T>) {
        let n = Vec::len(self);
        let mut v: Vec<&T> = Vec::new();
        let mut i: usize = 0;
        while i < n
            invariant
                n == self@.len(),
                i <= n,
                v@.len() == count_untested(self@.take(i as int)),
                forall|j: int| 0 <= j < v@.len() ==> !(*(#[trigger] v@[j])).spec_tested(),
            decreases n - i,
        {
            proof {
                lemma_count_untested_take_step(self@, i as int);
            }
            if !self[i].assumption_tested() {
                v.push(&self[i]);
            }
            i += 1;
        }
        proof {
            assert(self@.take(n as int) =~= self@);
        }
        v
    }

    fn verify_all_assumptions(&mut self, data: &Vec<NumericalValue>) {
        let ghost orig = self@;
        let n = Vec::len(self);
        let mut done: Vec<T> = Vec::new();
        let mut i: usize = 0;
        while i < n
            invariant
                orig.len() == n,
                i <= n,
                done@.len() == i,
                self@ =~= orig.skip(i as int),
                forall|j: int|
                    0 <= j < i ==> {
                        &&& (#[trigger] done@[j]).spec_tested()
                        &&& done@[j].spec_valid() == orig[j].spec_check(data@)
                    },
            decreases n - i,
        {
            let mut a = self.remove(0);
            a.verify_assumption(data);
            done.push(a);
            proof {
                assert(orig.skip(i as int).remove(0) =~= orig.skip(i + 1));
                assert(orig.skip(i as int)[0] == orig[i as int]);
            }
            i += 1;
        }
        *self = done;
    }

    fn get_all_items(&self) -> (v: Vec<&T>) {
        let n = Vec::len(self);
        let mut v: Vec<&T> = Vec::new();
        let mut i: usize = 0;
        while i < n
            invariant
                n == self@.len(),
                i <= n,
                v@.len() == i,
                forall|j: int| 0 <= j < i ==> *(#[trigger] v@[j]) == self@[j],
            decreases n - i,
        {
            v.push(&self[i]);
            i += 1;
        }
        v
    }
}

} // verus!
