//! Assumption-testing capabilities.

use vstd::prelude::*;

use crate::types::numerical::NumericalValue;

verus! {

/// A user-supplied assumption test over a whole data set.  The abstract
/// predicate names the outcome, and the executable test must agree with it.
pub trait AssumptionFunction: Sized {
    /// The outcome of the test on a data set.
    spec fn spec_check(&self, data: Seq<NumericalValue>) -> bool;

    /// Runs the test on a data set.
    fn check(&self, data: &Vec<NumericalValue>) -> (r: bool)
        ensures
            r == self.spec_check(data@),
    ;
}

/// One testable assumption that remembers whether it was tested and whether
/// it held.
pub trait Assumable: Sized {
    /// Whether the assumption has been tested.
    spec fn spec_tested(&self) -> bool;

    /// Whether the assumption held when last tested.
    spec fn spec_valid(&self) -> bool;

    /// The assumption's outcome on a data set.
    spec fn spec_check(&self, data: Seq<NumericalValue>) -> bool;

    /// Whether the assumption has been tested.
    fn assumption_tested(&self) -> (r: bool)
        ensures
            r == self.spec_tested(),
    ;

    /// Whether the assumption held when last tested.
    fn assumption_valid(&self) -> (r: bool)
        ensures
            r == self.spec_valid(),
    ;

    /// Tests the assumption against the data and records the outcome.
    fn verify_assumption(&mut self, data: &Vec<NumericalValue>) -> (r: bool)
        ensures
            r == old(self).spec_check(data@),
            final(self).spec_tested(),
            final(self).spec_valid() == r,
            forall|d: Seq<NumericalValue>| #[trigger]
                final(self).spec_check(d) == old(self).spec_check(d),
    ;
}

/// How many of the assumptions hold.
pub open spec fn count_valid<T: Assumable>(s: Seq<T>) -> int
    decreases s.len(),
{
    if s.len() == 0 {
        0
    } else {
        count_valid(s.drop_last()) + if s.last().spec_valid() {
            1int
        } else {
            0int
        }
    }
}

/// Counting over a prefix grows by the last element's answer.
pub proof fn lemma_count_valid_take_step<T: Assumable>(s: Seq<T>, i: int)
    requires
        0 <= i < s.len(),
    ensures
        count_valid(s.take(i + 1)) == count_valid(s.take(i)) + if s[i].spec_valid() {
            1int
        } else {
            0int
        },
{
    assert(s.take(i + 1).drop_last() =~= s.take(i));
    assert(s.take(i + 1).last() == s[i]);
}

/// The count never exceeds the element count.
pub proof fn lemma_count_valid_bounds<T: Assumable>(s: Seq<T>)
    ensures
        0 <= count_valid(s) <= s.len(),
    decreases s.len(),
{
    if s.len() > 0 {
        lemma_count_valid_bounds(s.drop_last());
    }
}

/// How many of the assumptions did not hold.
pub open spec fn count_invalid<T: Assumable>(s: Seq<T>) -> int
    decreases s.len(),
{
    if s.len() == 0 {
        0
    } else {
        count_invalid(s.drop_last()) + if !s.last().spec_valid() {
            1int
        } else {
            0int
        }
    }
}

/// Counting over a prefix grows by the last element's answer.
pub proof fn lemma_count_invalid_take_step<T: Assumable>(s: Seq<T>, i: int)
    requires
        0 <= i < s.len(),
    ensures
        count_invalid(s.take(i + 1)) == count_invalid(s.take(i)) + if !s[i].spec_valid() {
            1int
        } else {
            0int
        },
{
    assert(s.take(i + 1).drop_last() =~= s.take(i));
    assert(s.take(i + 1).last() == s[i]);
}

/// The count never exceeds the element count.
pub proof fn lemma_count_invalid_bounds<T: Assumable>(s: Seq<T>)
    ensures
        0 <= count_invalid(s) <= s.len(),
    decreases s.len(),
{
    if s.len() > 0 {
        lemma_count_invalid_bounds(s.drop_last());
    }
}

/// How many of the assumptions were tested.
pub open spec fn count_tested<T: Assumable>(s: Seq<T>) -> int
    decreases s.len(),
{
    if s.len() == 0 {
        0
    } else {
        count_tested(s.drop_last()) + if s.last().spec_tested() {
            1int
        } else {
            0int
        }
    }
}

/// Counting over a prefix grows by the last element's answer.
pub proof fn lemma_count_tested_take_step<T: Assumable>(s: Seq<T>, i: int)
    requires
        0 <= i < s.len(),
    ensures
        count_tested(s.take(i + 1)) == count_tested(s.take(i)) + if s[i].spec_tested() {
            1int
        } else {
            0int
        },
{
    assert(s.take(i + 1).drop_last() =~= s.take(i));
    assert(s.take(i + 1).last() == s[i]);
}

/// The count never exceeds the element count.
pub proof fn lemma_count_tested_bounds<T: Assumable>(s: Seq<T>)
    ensures
        0 <= count_tested(s) <= s.len(),
    decreases s.len(),
{
    if s.len() > 0 {
        lemma_count_tested_bounds(s.drop_last());
    }
}

/// How many of the assumptions were not yet tested.
pub open spec fn count_untested<T: Assumable>(s: Seq<T>) -> int
    decreases s.len(),
{
    if s.len() == 0 {
        0
    } else {
        count_untested(s.drop_last()) + if !s.last().spec_tested() {
            1int
        } else {
            0int
        }
    }
}

/// Counting over a prefix grows by the last element's answer.
pub proof fn lemma_count_untested_take_step<T: Assumable>(s: Seq<T>, i: int)
    requires
        0 <= i < s.len(),
    ensures
        count_untested(s.take(i + 1)) == count_untested(s.take(i)) + if !s[i].spec_tested() {
            1int
        } else {
            0int
        },
{
    assert(s.take(i + 1).drop_last() =~= s.take(i));
    assert(s.take(i + 1).last() == s[i]);
}

/// The count never exceeds the element count.
pub proof fn lemma_count_untested_bounds<T: Assumable>(s: Seq<T>)
    ensures
        0 <= count_untested(s) <= s.len(),
    decreases s.len(),
{
    if s.len() > 0 {
        lemma_count_untested_bounds(s.drop_last());
    }
}

/// Collective assumption testing over a collection of assumptions.
pub trait AssumableReasoning<T: Assumable>: Sized {
    /// The assumptions held, in order.
    spec fn assumable_items(&self) -> Seq<T>;

    /// How many assumptions are held.
    fn len(&self) -> (n: usize)
        ensures
            n == self.assumable_items().len(),
    ;

    /// Whether no assumption is held.
    fn is_empty(&self) -> (r: bool)
        ensures
            r == (self.assumable_items().len() == 0),
    ;

    /// Whether every assumption has been tested.
    fn all_assumptions_tested(&self) -> (r: bool)
        ensures
            r == (forall|i: int|
                0 <= i < self.assumable_items().len()
                    ==> (#[trigger] self.assumable_items()[i]).spec_tested()),
    ;

    /// Whether every assumption held when tested.
    fn all_assumptions_valid(&self) -> (r: bool)
        ensures
            r == (forall|i: int|
                0 <= i < self.assumable_items().len()
                    ==> (#[trigger] self.assumable_items()[i]).spec_valid()),
    ;

    /// The share of assumptions that held, in percent; zero over an empty
    /// collection.
    fn percent_assumption_valid(&self) -> (p: NumericalValue)
        requires
            self.assumable_items().len() * 10000 <= i64::MAX,
        ensures
            self.assumable_items().len() == 0 ==> p.spec_hundredths() == 0,
            self.assumable_items().len() > 0 ==> p.spec_hundredths() == count_valid(
                self.assumable_items(),
            ) * 10000 / (self.assumable_items().len() as int),
    ;

    /// Every assumption that held, in order, by reference.
    fn get_all_valid_assumptions(&self) -> (v: Vec<&T>)
        ensures
            v@.len() == count_valid(self.assumable_items()),
            forall|j: int| 0 <= j < v@.len() ==> (*(#[trigger] v@[j])).spec_valid(),
    ;

    /// Every assumption that did not hold, in order, by reference.
    fn get_all_invalid_assumptions(&self) -> (v: Vec<&T>)
        ensures
            v@.len() == count_invalid(self.assumable_items()),
            forall|j: int| 0 <= j < v@.len() ==> !(*(#[trigger] v@[j])).spec_valid(),
    ;

    /// Every tested assumption, in order, by reference.
    fn get_all_tested_assumptions(&self) -> (v: Vec<&T>)
        ensures
            v@.len() == count_tested(self.assumable_items()),
            forall|j: int| 0 <= j < v@.len() ==> (*(#[trigger] v@[j])).spec_tested(),
    ;

    /// Every assumption not yet tested, in order, by reference.
    fn get_all_untested_assumptions(&self) -> (v: Vec<&T>)
        ensures
            v@.len() == count_untested(self.assumable_items()),
            forall|j: int| 0 <= j < v@.len() ==> !(*(#[trigger] v@[j])).spec_tested(),
    ;

    /// Tests every assumption against the data and records each outcome:
    /// afterwards every assumption is tested, and each is valid exactly when
    /// its own test held of the data.
    fn verify_all_assumptions(&mut self, data: &Vec<NumericalValue>)
        ensures
            final(self).assumable_items().len() == old(self).assumable_items().len(),
            forall|i: int|
                0 <= i < final(self).assumable_items().len() ==> {
                    &&& (#[trigger] final(self).assumable_items()[i]).spec_tested()
                    &&& final(self).assumable_items()[i].spec_valid() == old(
                        self,
                    ).assumable_items()[i].spec_check(data@)
                },
    ;

    /// Every held assumption, in order, by reference.
    fn get_all_items(&self) -> (v: Vec<&T>)
        ensures
            v@.len() == self.assumable_items().len(),
            forall|i: int| 0 <= i < v@.len() ==> *(#[trigger] v@[i]) == self.assumable_items()[i],
    ;
}

} // verus!
