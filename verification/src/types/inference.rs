//! One inference drawn from observations.

use vstd::prelude::*;
use vstd::string::StringExecFns;

use crate::protocols::identifiable::Identifiable;
use crate::types::numerical::NumericalValue;

verus! {

/// An identified inference: the question asked, the observation and
/// threshold it was judged by, and the effect seen against the target.
#[derive(Debug, Clone)]
pub struct Inference {
    id: u64,
    question: String,
    observation: NumericalValue,
    threshold: NumericalValue,
    effect: NumericalValue,
    target: NumericalValue,
}

impl Inference {
    /// The question, as an abstract value.
    pub closed spec fn spec_question(&self) -> Seq<char> {
        self.question@
    }

    /// The observation, as an abstract value.
    pub closed spec fn spec_observation(&self) -> NumericalValue {
        self.observation
    }

    /// The threshold, as an abstract value.
    pub closed spec fn spec_threshold(&self) -> NumericalValue {
        self.threshold
    }

    /// The effect, as an abstract value.
    pub closed spec fn spec_effect(&self) -> NumericalValue {
        self.effect
    }

    /// The target, as an abstract value.
    pub closed spec fn spec_target(&self) -> NumericalValue {
        self.target
    }

    /// An inference record.
    pub fn new(
        id: u64,
        question: &str,
        observation: NumericalValue,
        threshold: NumericalValue,
        effect: NumericalValue,
        target: NumericalValue,
    ) -> (inf: Inference)
        ensures
            inf.spec_id() == id,
            inf.spec_question() == question@,
            inf.spec_observation() == observation,
            inf.spec_threshold() == threshold,
            inf.spec_effect() == effect,
            inf.spec_target() == target,
    {
        Inference { id, question: String::from_str(question), observation, threshold, effect, target }
    }

    /// The question asked.
    pub fn question(&self) -> (q: &str)
        ensures
            q@ == self.spec_question(),
    {
        self.question.as_str()
    }

    /// The observation the inference was judged by.
    pub fn observation(&self) -> (v: NumericalValue)
        ensures
            v == self.spec_observation(),
    {
        self.observation
    }

    /// The threshold the observation was held against.
    pub fn threshold(&self) -> (v: NumericalValue)
        ensures
            v == self.spec_threshold(),
    {
        self.threshold
    }

    /// The effect seen.
    pub fn effect(&self) -> (v: NumericalValue)
        ensures
            v == self.spec_effect(),
    {
        self.effect
    }

    /// The target effect.
    pub fn target(&self) -> (v: NumericalValue)
        ensures
            v == self.spec_target(),
    {
        self.target
    }

    /// An inference is inferable when the observation reached the threshold
    /// and the effect matches the target.
    pub fn is_inferable(&self) -> (r: bool)
        ensures
            r == (self.spec_observation().spec_hundredths()
                >= self.spec_threshold().spec_hundredths() && self.spec_effect().spec_hundredths()
                == self.spec_target().spec_hundredths()),
    {
        self.observation.ge(&self.threshold) && self.effect.eq_value(&self.target)
    }
}

impl Identifiable for Inference {
    closed spec fn spec_id(&self) -> u64 {
        self.id
    }

    fn id(&self) -> u64 {
        self.id
    }
}

} // verus!
