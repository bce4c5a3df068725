//! Causal reasoning capabilities.

use vstd::prelude::*;

use crate::errors::CausalityError;
use crate::types::numerical::NumericalValue;

verus! {

/// A user-supplied causal test: given one observation, decide whether the
/// cause fires.  The abstract result names the outcome (`None` meaning the
/// test rejects the observation), and the executable test must agree with
/// it.
pub trait CausalFunction: Sized {
    /// The outcome on an observation: `Some(active)` or rejection.
    spec fn spec_eval(&self, obs: NumericalValue) -> Option<bool>;

    /// Runs the test on one observation.
    fn evaluate(&self, obs: &NumericalValue) -> (r: Result<bool, CausalityError>)
        ensures
            match self.spec_eval(*obs) {
                Some(b) => r matches Ok(v) && v == b,
                None => r is Err,
            },
    ;
}

/// One testable cause with an activation state.
pub trait Causable: Sized {
    /// Whether the cause is currently active.
    spec fn spec_active(&self) -> bool;

    /// Whether the cause is currently active.
    fn is_active(&self) -> (r: bool)
        ensures
            r == self.spec_active(),
    ;

    /// Tests the cause against a single observation and records the
    /// outcome: afterwards the cause is active exactly when the returned
    /// answer is true.
    fn verify_single_cause(&mut self, obs: &NumericalValue) -> (r: Result<bool, CausalityError>)
        ensures
            r matches Ok(b) ==> final(self).spec_active() == b,
            r is Err ==> final(self).spec_active() == old(self).spec_active(),
    ;

    /// Explains the cause's last evaluation; an error while the cause has
    /// never fired.
    fn explain(&self) -> Result<String, CausalityError>;
}

/// How many of the causes are active.
pub open spec fn count_active<T: Causable>(s: Seq<T>) -> int
    decreases s.len(),
{
    if s.len() == 0 {
        0
    } else {
        count_active(s.drop_last()) + if s.last().spec_active() {
            1int
        } else {
            0int
        }
    }
}

/// Collective reasoning over a collection of causes.
pub trait CausableReasoning<T: Causable>: Sized {
    /// The causes held, in order.
    spec fn causable_items(&self) -> Seq<T>;

    /// How many causes are held.
    fn len(&self) -> (n: usize)
        ensures
            n == self.causable_items().len(),
    ;

    /// Whether no cause is held.
    fn is_empty(&self) -> (r: bool)
        ensures
            r == (self.causable_items().len() == 0),
    ;

    /// Whether every cause is active.
    fn get_all_causes_true(&self) -> (r: bool)
        ensures
            r == (forall|i: int|
                0 <= i < self.causable_items().len()
                    ==> (#[trigger] self.causable_items()[i]).spec_active()),
    ;

    /// The number of active causes, as a numeric value.
    fn number_active(&self) -> (n: NumericalValue)
        requires
            self.causable_items().len() * 100 <= i64::MAX,
        ensures
            n.spec_hundredths() == count_active(self.causable_items()) * 100,
    ;

    /// The share of active causes, in percent; zero over an empty
    /// collection.
    fn percent_active(&self) -> (p: NumericalValue)
        requires
            self.causable_items().len() * 10000 <= i64::MAX,
        ensures
            self.causable_items().len() == 0 ==> p.spec_hundredths() == 0,
            self.causable_items().len() > 0 ==> p.spec_hundredths() == count_active(
                self.causable_items(),
            ) * 10000 / (self.causable_items().len() as int),
    ;

    /// Every held cause, in order, by reference.
    fn get_all_items(&self) -> (v: Vec<&T>)
        ensures
            v@.len() == self.causable_items().len(),
            forall|i: int| 0 <= i < v@.len() ==> *(#[trigger] v@[i]) == self.causable_items()[i],
    ;

    /// Every held cause, in order, by reference.
    fn to_vec(&self) -> (v: Vec<&T>)
        ensures
            v@.len() == self.causable_items().len(),
            forall|i: int| 0 <= i < v@.len() ==> *(#[trigger] v@[i]) == self.causable_items()[i],
    ;
}

/// Counting active causes over a prefix grows by the last element's state.
pub proof fn lemma_count_active_take_step<T: Causable>(s: Seq<T>, i: int)
    requires
        0 <= i < s.len(),
    ensures
        count_active(s.take(i + 1)) == count_active(s.take(i)) + if s[i].spec_active() {
            1int
        } else {
            0int
        },
{
    assert(s.take(i + 1).drop_last() =~= s.take(i));
    assert(s.take(i + 1).last() == s[i]);
}

/// The active count never exceeds the number of causes.
pub proof fn lemma_count_active_bounds<T: Causable>(s: Seq<T>)
    ensures
        0 <= count_active(s) <= s.len(),
    decreases s.len(),
{
    if s.len() > 0 {
        lemma_count_active_bounds(s.drop_last());
    }
}

} // verus!
