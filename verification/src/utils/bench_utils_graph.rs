//! Builders for the standard causal graph shapes, with the sample data that
//! drives them.

use vstd::prelude::*;

use crate::types::causaloid::Causaloid;
use crate::types::causaloid::ThresholdCause;
use crate::types::causaloid_graph::CausaloidGraph;
use crate::types::numerical::NumericalValue;
use crate::utils::test_utils::get_test_causaloid;

verus! {

/// `k + 1` sample values that every standard test cause fires on.
pub fn generate_sample_data(k: usize) -> (v: Vec<NumericalValue>)
    requires
        k < usize::MAX,
    ensures
        v@.len() == k + 1,
        forall|i: int| 0 <= i < v@.len() ==> (#[trigger] v@[i]).spec_hundredths() == 99,
{
    let mut v: Vec<NumericalValue> = Vec::new();
    let mut i: usize = 0;
    while i < k + 1
        invariant
            k < usize::MAX,
            i <= k + 1,
            v@.len() == i,
            forall|j: int| 0 <= j < i ==> (#[trigger] v@[j]).spec_hundredths() == 99,
        decreases k + 1 - i,
    {
        v.push(NumericalValue::from_hundredths(99));
        i += 1;
    }
    v
}

/// A linear chain: the root, then `k` causes, each linked to the one before
/// it.  Node `i + 1` hangs off node `i`; the root is node `0`.
pub fn build_linear_graph(k: usize) -> (g: CausaloidGraph<Causaloid<ThresholdCause>>)
    requires
        k < usize::MAX,
    ensures
        g.spec_nodes().len() == k + 1,
        g.spec_root() == Some(0usize),
        g.spec_edges().len() == k,
        forall|i: int|
            0 <= i < k ==> #[trigger] g.spec_edges()[i] == ((i as usize), ((i + 1) as usize)),
{
    let mut g: CausaloidGraph<Causaloid<ThresholdCause>> = CausaloidGraph::new();
    let root_causaloid = get_test_causaloid();
    let root_index = g.add_root_causaloid(root_causaloid);
    let mut previous_idx = root_index;
    let mut added: usize = 0;
    while added < k
        invariant
            k < usize::MAX,
            added <= k,
            previous_idx == added,
            g.spec_nodes().len() == added + 1,
            g.spec_root() == Some(0usize),
            g.spec_edges().len() == added,
            forall|i: int|
                0 <= i < added ==> #[trigger] g.spec_edges()[i] == (
                    (i as usize),
                    ((i + 1) as usize),
                ),
        decreases k - added,
    {
        let causaloid = get_test_causaloid();
        let current_idx = g.add_causaloid(causaloid);
        g.add_edge(previous_idx, current_idx);
        previous_idx = current_idx;
        added += 1;
    }
    g
}

/// A diamond: two causes under the root joining in one effect.
pub fn build_multi_cause_graph() -> (g: CausaloidGraph<Causaloid<ThresholdCause>>)
    ensures
        g.spec_nodes().len() == 4,
        g.spec_root() == Some(0usize),
        g.spec_edges() =~= seq![
            (0usize, 1usize),
            (0usize, 2usize),
            (1usize, 3usize),
            (2usize, 3usize),
        ],
{
    let mut g: CausaloidGraph<Causaloid<ThresholdCause>> = CausaloidGraph::new();

    let root_causaloid = get_test_causaloid();
    let root_index = g.add_root_causaloid(root_causaloid);

    let causaloid = get_test_causaloid();
    let idx_a = g.add_causaloid(causaloid);
    g.add_edge(root_index, idx_a);

    let causaloid = get_test_causaloid();
    let idx_b = g.add_causaloid(causaloid);
    g.add_edge(root_index, idx_b);

    let causaloid = get_test_causaloid();
    let idx_c = g.add_causaloid(causaloid);
    g.add_edge(idx_a, idx_c);
    g.add_edge(idx_b, idx_c);

    g
}

/// Two layers under the root: three causes, each feeding the effects below
/// and beside it.
pub fn build_multi_layer_cause_graph() -> (g: CausaloidGraph<Causaloid<ThresholdCause>>)
    ensures
        g.spec_nodes().len() == 8,
        g.spec_root() == Some(0usize),
        g.spec_edges() =~= seq![
            (0usize, 1usize),
            (0usize, 2usize),
            (0usize, 3usize),
            (1usize, 4usize),
            (1usize, 5usize),
            (2usize, 5usize),
            (2usize, 6usize),
            (3usize, 6usize),
            (3usize, 7usize),
        ],
{
    let mut g: CausaloidGraph<Causaloid<ThresholdCause>> = CausaloidGraph::new();

    let root_causaloid = get_test_causaloid();
    let root_index = g.add_root_causaloid(root_causaloid);

    // First layer.
    let causaloid = get_test_causaloid();
    let idx_a = g.add_causaloid(causaloid);
    g.add_edge(root_index, idx_a);

    let causaloid = get_test_causaloid();
    let idx_b = g.add_causaloid(causaloid);
    g.add_edge(root_index, idx_b);

    let causaloid = get_test_causaloid();
    let idx_c = g.add_causaloid(causaloid);
    g.add_edge(root_index, idx_c);

    // Second layer.
    let causaloid = get_test_causaloid();
    let idx_d = g.add_causaloid(causaloid);
    g.add_edge(idx_a, idx_d);

    let causaloid = get_test_causaloid();
    let idx_e = g.add_causaloid(causaloid);
    g.add_edge(idx_a, idx_e);
    g.add_edge(idx_b, idx_e);

    let causaloid = get_test_causaloid();
    let idx_f = g.add_causaloid(causaloid);
    g.add_edge(idx_b, idx_f);
    g.add_edge(idx_c, idx_f);

    let causaloid = get_test_causaloid();
    let idx_g = g.add_causaloid(causaloid);
    g.add_edge(idx_c, idx_g);

    g
}

/// Three causes under the root, with the left one carrying both effects.
pub fn build_left_imbalanced_cause_graph() -> (g: CausaloidGraph<Causaloid<ThresholdCause>>)
    ensures
        g.spec_nodes().len() == 6,
        g.spec_root() == Some(0usize),
        g.spec_edges() =~= seq![
            (0usize, 1usize),
            (0usize, 2usize),
            (0usize, 3usize),
            (1usize, 4usize),
            (1usize, 5usize),
        ],
{
    let mut g: CausaloidGraph<Causaloid<ThresholdCause>> = CausaloidGraph::new();

    let root_causaloid = get_test_causaloid();
    let root_index = g.add_root_causaloid(root_causaloid);

    // First layer.
    let causaloid = get_test_causaloid();
    let idx_a = g.add_causaloid(causaloid);
    g.add_edge(root_index, idx_a);

    let causaloid = get_test_causaloid();
    let idx_b = g.add_causaloid(causaloid);
    g.add_edge(root_index, idx_b);

    let causaloid = get_test_causaloid();
    let idx_c = g.add_causaloid(causaloid);
    g.add_edge(root_index, idx_c);

    // Second layer, under the left cause.
    let causaloid = get_test_causaloid();
    let idx_d = g.add_causaloid(causaloid);
    g.add_edge(idx_a, idx_d);

    let causaloid = get_test_causaloid();
    let idx_e = g.add_causaloid(causaloid);
    g.add_edge(idx_a, idx_e);

    g
}

/// Three causes under the root, with the right one carrying both effects.
pub fn build_right_imbalanced_cause_graph() -> (g: CausaloidGraph<Causaloid<ThresholdCause>>)
    ensures
        g.spec_nodes().len() == 6,
        g.spec_root() == Some(0usize),
        g.spec_edges() =~= seq![
            (0usize, 1usize),
            (0usize, 2usize),
            (0usize, 3usize),
            (3usize, 4usize),
            (3usize, 5usize),
        ],
{
    let mut g: CausaloidGraph<Causaloid<ThresholdCause>> = CausaloidGraph::new();

    let root_causaloid = get_test_causaloid();
    let root_index = g.add_root_causaloid(root_causaloid);

    // First layer.
    let causaloid = get_test_causaloid();
    let idx_a = g.add_causaloid(causaloid);
    g.add_edge(root_index, idx_a);

    let causaloid = get_test_causaloid();
    let idx_b = g.add_causaloid(causaloid);
    g.add_edge(root_index, idx_b);

    let causaloid = get_test_causaloid();
    let idx_c = g.add_causaloid(causaloid);
    g.add_edge(root_index, idx_c);

    // Second layer, under the right cause.
    let causaloid = get_test_causaloid();
    let idx_d = g.add_causaloid(causaloid);
    g.add_edge(idx_c, idx_d);

    let causaloid = get_test_causaloid();
    let idx_e = g.add_causaloid(causaloid);
    g.add_edge(idx_c, idx_e);

    g
}

/// A small linear graph with its sample data.
pub fn get_small_linear_graph_and_data() -> (r: (
    CausaloidGraph<Causaloid<ThresholdCause>>,
    Vec<NumericalValue>,
))
    ensures
        r.0.spec_nodes().len() == 101,
        r.0.spec_edges().len() == 100,
        r.0.spec_root() == Some(0usize),
        forall|i: int|
            0 <= i < 100 ==> #[trigger] r.0.spec_edges()[i] == ((i as usize), ((i + 1) as usize)),
        r.1@.len() == 101,
        forall|i: int| 0 <= i < r.1@.len() ==> (#[trigger] r.1@[i]).spec_hundredths() == 99,
{
    let k: usize = 100;
    (build_linear_graph(k), generate_sample_data(k))
}

/// A medium linear graph with its sample data.
pub fn get_medium_linear_graph_and_data() -> (r: (
    CausaloidGraph<Causaloid<ThresholdCause>>,
    Vec<NumericalValue>,
))
    ensures
        r.0.spec_nodes().len() == 1001,
        r.0.spec_edges().len() == 1000,
        r.0.spec_root() == Some(0usize),
        forall|i: int|
            0 <= i < 1000 ==> #[trigger] r.0.spec_edges()[i] == ((i as usize), ((i + 1) as usize)),
        r.1@.len() == 1001,
        forall|i: int| 0 <= i < r.1@.len() ==> (#[trigger] r.1@[i]).spec_hundredths() == 99,
{
    let k: usize = 1000;
    (build_linear_graph(k), generate_sample_data(k))
}

/// A large linear graph with its sample data.
pub fn get_large_linear_graph_and_data() -> (r: (
    CausaloidGraph<Causaloid<ThresholdCause>>,
    Vec<NumericalValue>,
))
    ensures
        r.0.spec_nodes().len() == 10001,
        r.0.spec_edges().len() == 10000,
        r.0.spec_root() == Some(0usize),
        forall|i: int|
            0 <= i < 10000 ==> #[trigger] r.0.spec_edges()[i] == ((i as usize), ((i + 1) as usize)),
        r.1@.len() == 10001,
        forall|i: int| 0 <= i < r.1@.len() ==> (#[trigger] r.1@[i]).spec_hundredths() == 99,
{
    let k: usize = 10000;
    (build_linear_graph(k), generate_sample_data(k))
}

/// The diamond graph with its sample data.
pub fn get_small_multi_cause_graph_and_data() -> (r: (
    CausaloidGraph<Causaloid<ThresholdCause>>,
    Vec<NumericalValue>,
))
    ensures
        r.0.spec_nodes().len() == 4,
        r.0.spec_root() == Some(0usize),
        r.0.spec_edges() =~= seq![
            (0usize, 1usize),
            (0usize, 2usize),
            (1usize, 3usize),
            (2usize, 3usize),
        ],
        r.1@.len() == 5,
        forall|i: int| 0 <= i < r.1@.len() ==> (#[trigger] r.1@[i]).spec_hundredths() == 99,
{
    (build_multi_cause_graph(), generate_sample_data(4))
}

/// The two-layer graph with its sample data.
pub fn get_small_multi_layer_cause_graph_and_data() -> (r: (
    CausaloidGraph<Causaloid<ThresholdCause>>,
    Vec<NumericalValue>,
))
    ensures
        r.0.spec_nodes().len() == 8,
        r.0.spec_root() == Some(0usize),
        r.0.spec_edges() =~= seq![
            (0usize, 1usize),
            (0usize, 2usize),
            (0usize, 3usize),
            (1usize, 4usize),
            (1usize, 5usize),
            (2usize, 5usize),
            (2usize, 6usize),
            (3usize, 6usize),
            (3usize, 7usize),
        ],
        r.1@.len() == 9,
        forall|i: int| 0 <= i < r.1@.len() ==> (#[trigger] r.1@[i]).spec_hundredths() == 99,
{
    (build_multi_layer_cause_graph(), generate_sample_data(8))
}

/// The left-imbalanced graph with its sample data.
pub fn get_left_imbalanced_cause_graph() -> (r: (
    CausaloidGraph<Causaloid<ThresholdCause>>,
    Vec<NumericalValue>,
))
    ensures
        r.0.spec_nodes().len() == 6,
        r.0.spec_root() == Some(0usize),
        r.0.spec_edges() =~= seq![
            (0usize, 1usize),
            (0usize, 2usize),
            (0usize, 3usize),
            (1usize, 4usize),
            (1usize, 5usize),
        ],
        r.1@.len() == 7,
        forall|i: int| 0 <= i < r.1@.len() ==> (#[trigger] r.1@[i]).spec_hundredths() == 99,
{
    (build_left_imbalanced_cause_graph(), generate_sample_data(6))
}

/// The right-imbalanced graph with its sample data.
pub fn get_right_imbalanced_cause_graph() -> (r: (
    CausaloidGraph<Causaloid<ThresholdCause>>,
    Vec<NumericalValue>,
))
    ensures
        r.0.spec_nodes().len() == 6,
        r.0.spec_root() == Some(0usize),
        r.0.spec_edges() =~= seq![
            (0usize, 1usize),
            (0usize, 2usize),
            (0usize, 3usize),
            (3usize, 4usize),
            (3usize, 5usize),
        ],
        r.1@.len() == 7,
        forall|i: int| 0 <= i < r.1@.len() ==> (#[trigger] r.1@[i]).spec_hundredths() == 99,
{
    (build_right_imbalanced_cause_graph(), generate_sample_data(6))
}

} // verus!
