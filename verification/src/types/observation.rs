//! One recorded observation.

use vstd::prelude::*;

use crate::protocols::identifiable::Identifiable;
use crate::protocols::observable::Observable;
use crate::types::numerical::NumericalValue;

verus! {

/// An identified observation and the effect observed alongside it.
#[derive(Debug, Clone, Copy, PartialEq, Eq, Structural)]
pub struct Observation {
    id: u64,
    observation: NumericalValue,
    observed_effect: NumericalValue,
}

impl Observation {
    /// An observation record.
    pub fn new(id: u64, observation: NumericalValue, observed_effect: NumericalValue) -> (o:
        Observation)
        ensures
            o.spec_id() == id,
            o.spec_observation() == observation,
            o.spec_observed_effect() == observed_effect,
    {
        Observation { id, observation, observed_effect }
    }

    /// The effect observed.
    pub fn observed_effect(&self) -> (v: NumericalValue)
        ensures
            v == self.spec_observed_effect(),
    {
        self.observed_effect
    }
}

impl Identifiable for Observation {
    closed spec fn spec_id(&self) -> u64 {
        self.id
    }

    fn id(&self) -> u64 {
        self.id
    }
}

impl Observable for Observation {
    closed spec fn spec_observation(&self) -> NumericalValue {
        self.observation
    }

    closed spec fn spec_observed_effect(&self) -> NumericalValue {
        self.observed_effect
    }

    fn observation(&self) -> NumericalValue {
        self.observation
    }

    fn effect_observed(&self, target_threshold: &NumericalValue, target_effect: &NumericalValue)
        -> bool {
        self.observation.ge(target_threshold) && self.observed_effect.eq_value(target_effect)
    }
}

} // verus!
