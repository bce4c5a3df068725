//! Standard fixtures: the causaloids, assumptions, data sets and contexts
//! that the test suite reasons over.

use vstd::prelude::*;

use crate::protocols::assumable::Assumable;
use crate::protocols::causable::Causable;
use crate::protocols::contextuable::ContextuableGraph;
use crate::types::assumption::Assumption;
use crate::types::assumption::PositiveValues;
use crate::types::causaloid::BaseContext;
use crate::types::causaloid::CausalType;
use crate::types::causaloid::Causaloid;
use crate::types::causaloid::ThresholdCause;
use crate::types::context_types::context_graph::Context;
use crate::types::context_types::context_graph::live_count;
use crate::types::context_types::contextoid::Contextoid;
use crate::types::context_types::contextoid::ContextoidType;
use crate::types::context_types::node_types::Root;
use crate::types::numerical::NumericalValue;

verus! {

/// The standard test cause: fires when the observation exceeds `0.55`.
pub fn get_test_causaloid() -> (c: Causaloid<ThresholdCause>)
    ensures
        c.wf(),
        c.spec_id() == 1,
        c.spec_kind() == CausalType::Singleton,
        !c.spec_active(),
        c.spec_causal_fn() matches Some(f) && f.spec_threshold().spec_hundredths() == 55,
        c.spec_context() is None,
{
    let threshold = NumericalValue::from_hundredths(55);
    Causaloid::new(
        1,
        ThresholdCause::new(threshold),
        "tests whether data exceeds threshold of 0.55",
    )
}

/// Three standard test causes.
pub fn get_test_causality_vec() -> (v: Vec<Causaloid<ThresholdCause>>)
    ensures
        v@.len() == 3,
        forall|i: int| 0 <= i < v@.len() ==> !(#[trigger] v@[i]).spec_active(),
{
    let mut v: Vec<Causaloid<ThresholdCause>> = Vec::new();
    v.push(get_test_causaloid());
    v.push(get_test_causaloid());
    v.push(get_test_causaloid());
    v
}

/// Ten standard test causes.
pub fn get_test_causality_array() -> (v: Vec<Causaloid<ThresholdCause>>)
    ensures
        v@.len() == 10,
        forall|i: int|
            0 <= i < v@.len() ==> {
                &&& !(#[trigger] v@[i]).spec_active()
                &&& v@[i].spec_kind() == CausalType::Singleton
                &&& v@[i].spec_causal_fn() matches Some(f) && f.spec_threshold().spec_hundredths()
                    == 55
            },
{
    let mut v: Vec<Causaloid<ThresholdCause>> = Vec::new();
    let mut i: usize = 0;
    while i < 10
        invariant
            i <= 10,
            v@.len() == i,
            forall|j: int|
                0 <= j < i ==> {
                    &&& !(#[trigger] v@[j]).spec_active()
                    &&& v@[j].spec_kind() == CausalType::Singleton
                    &&& v@[j].spec_causal_fn() matches Some(f) && f.spec_threshold(
                    ).spec_hundredths() == 55
                },
        decreases 10 - i,
    {
        v.push(get_test_causaloid());
        i += 1;
    }
    v
}

/// The standard test assumption: all values are positive.
pub fn get_test_assumption() -> (a: Assumption<PositiveValues>)
    ensures
        !a.spec_tested(),
        !a.spec_valid(),
{
    Assumption::new(1, "assumption: all values are positive", PositiveValues)
}

/// Ten positive sample values.
pub fn get_test_num_array() -> (v: Vec<NumericalValue>)
    ensures
        v@.len() == 10,
        forall|i: int| 0 <= i < v@.len() ==> (#[trigger] v@[i]).spec_hundredths() > 0,
{
    let mut v: Vec<NumericalValue> = Vec::new();
    let mut i: usize = 0;
    while i < 10
        invariant
            i <= 10,
            v@.len() == i,
            forall|j: int| 0 <= j < i ==> (#[trigger] v@[j]).spec_hundredths() > 0,
        decreases 10 - i,
    {
        v.push(NumericalValue::from_units((i + 1) as i64));
        i += 1;
    }
    v
}

/// The standard test context: one root node.
pub fn get_test_context() -> (c: BaseContext)
    ensures
        live_count(c.spec_nodes()) == 1,
{
    let mut context: BaseContext = Context::with_capacity(1, "base context", 10);
    let root = Root::new(1);
    let contextoid = Contextoid::new(1, ContextoidType::Root(root));
    context.add_node(contextoid);
    proof {
        assert(context.spec_nodes().drop_last() =~= Seq::empty());
        assert(live_count(context.spec_nodes().drop_last()) == 0);
        assert(live_count(context.spec_nodes()) == 1);
    }
    context
}

} // verus!
