//! One testable assumption over observed data.

use vstd::prelude::*;
use vstd::string::StringExecFns;

use crate::protocols::assumable::Assumable;
use crate::protocols::assumable::AssumptionFunction;
use crate::types::numerical::NumericalValue;

verus! {

/// An assumption test holding exactly when every value of the data set
/// exceeds zero.
#[derive(Debug, Clone, Copy, PartialEq, Eq, Structural)]
pub struct PositiveValues;

impl AssumptionFunction for PositiveValues {
    open spec fn spec_check(&self, data: Seq<NumericalValue>) -> bool {
        forall|i: int| 0 <= i < data.len() ==> (#[trigger] data[i]).spec_hundredths() > 0
    }

    fn check(&self, data: &Vec<NumericalValue>) -> (r: bool) {
        let n = data.len();
        let mut i: usize = 0;
        while i < n
            invariant
                n == data@.len(),
                i <= n,
                forall|j: int| 0 <= j < i ==> (#[trigger] data@[j]).spec_hundredths() > 0,
            decreases n - i,
        {
            let zero = NumericalValue::zero();
            if !data[i].gt(&zero) {
                proof {
                    assert(!((#[trigger] data@[i as int]).spec_hundredths() > 0));
                }
                return false;
            }
            i += 1;
        }
        true
    }
}

/// One identified assumption: a description, a test, and the record of its
/// last outcome.
#[derive(Debug)]
pub struct Assumption<A> where A: AssumptionFunction {
    id: u64,
    description: String,
    assumption_fn: A,
    assumption_tested: bool,
    assumption_valid: bool,
}

impl<A> Assumption<A> where A: AssumptionFunction {
    /// The identity, as an abstract value.
    pub closed spec fn spec_id(&self) -> u64 {
        self.id
    }

    /// The description, as an abstract value.
    pub closed spec fn spec_description(&self) -> Seq<char> {
        self.description@
    }

    /// The held test, as an abstract value.
    pub closed spec fn spec_assumption_fn(&self) -> A {
        self.assumption_fn
    }

    /// A fresh, untested assumption.
    pub fn new(id: u64, description: &str, assumption_fn: A) -> (a: Assumption<A>)
        ensures
            a.spec_id() == id,
            a.spec_description() == description@,
            a.spec_assumption_fn() == assumption_fn,
            !a.spec_tested(),
            !a.spec_valid(),
    {
        Assumption {
            id,
            description: String::from_str(description),
            assumption_fn,
            assumption_tested: false,
            assumption_valid: false,
        }
    }

    /// The identity.
    pub fn id(&self) -> (id: u64)
        ensures
            id == self.spec_id(),
    {
        self.id
    }

    /// The description.
    pub fn description(&self) -> (d: &str)
        ensures
            d@ == self.spec_description(),
    {
        self.description.as_str()
    }
}

impl<A> Assumable for Assumption<A> where A: AssumptionFunction {
    closed spec fn spec_tested(&self) -> bool {
        self.assumption_tested
    }

    closed spec fn spec_valid(&self) -> bool {
        self.assumption_valid
    }

    closed spec fn spec_check(&self, data: Seq<NumericalValue>) -> bool {
        self.assumption_fn.spec_check(data)
    }

    fn assumption_tested(&self) -> bool {
        self.assumption_tested
    }

    fn assumption_valid(&self) -> bool {
        self.assumption_valid
    }

    fn verify_assumption(&mut self, data: &Vec<NumericalValue>) -> (r: bool) {
        let outcome = self.assumption_fn.check(data);
        self.assumption_tested = true;
        self.assumption_valid = outcome;
        outcome
    }
}

} // verus!
