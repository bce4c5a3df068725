//! Observation capabilities.

use vstd::prelude::*;

use crate::types::numerical::NumericalValue;

verus! {

/// One recorded observation with the effect observed alongside it.
pub trait Observable: Sized {
    /// The observed value.
    spec fn spec_observation(&self) -> NumericalValue;

    /// The effect observed.
    spec fn spec_observed_effect(&self) -> NumericalValue;

    /// The observed value.
    fn observation(&self) -> (v: NumericalValue)
        ensures
            v == self.spec_observation(),
    ;

    /// Whether this observation saw the given effect at or above the given
    /// threshold.
    fn effect_observed(
        &self,
        target_threshold: &NumericalValue,
        target_effect: &NumericalValue,
    ) -> (r: bool)
        ensures
            r == (self.spec_observation().spec_hundredths() >= target_threshold.spec_hundredths()
                && self.spec_observed_effect().spec_hundredths()
                == target_effect.spec_hundredths()),
    ;
}

/// Collective access to a collection of observations.
pub trait ObservableCollection<T: Observable>: Sized {
    /// The observations held, in order.
    spec fn observable_items(&self) -> Seq<T>;

    /// How many observations are held.
    fn len(&self) -> (n: usize)
        ensures
            n == self.observable_items().len(),
    ;

    /// Whether no observation is held.
    fn is_empty(&self) -> (r: bool)
        ensures
            r == (self.observable_items().len() == 0),
    ;

    /// Every held observation, in order, by reference.
    fn get_all_items(&self) -> (v: Vec<&T>)
        ensures
            v@.len() == self.observable_items().len(),
            forall|i: int| 0 <= i < v@.len() ==> *(#[trigger] v@[i]) == self.observable_items()[i],
    ;
}

} // verus!
