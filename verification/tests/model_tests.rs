use deep_causality::errors::CausalGraphIndexError;
use deep_causality::errors::CausalityError;
use deep_causality::errors::CausalityGraphError;
use deep_causality::errors::ContextIndexError;
use deep_causality::protocols::causable::Causable;
use deep_causality::protocols::causable::CausalFunction;
use deep_causality::protocols::contextuable::ContextuableGraph;
use deep_causality::protocols::contextuable::SpaceTemporal;
use deep_causality::protocols::contextuable::Spatial;
use deep_causality::protocols::contextuable::Temporable;
use deep_causality::protocols::adjustable::Adjustable;
use deep_causality::protocols::identifiable::Identifiable;
use deep_causality::protocols::indexable::Indexable;
use deep_causality::protocols::observable::Observable;
use deep_causality::protocols::observable::ObservableCollection;
use deep_causality::types::array_grid::ArrayGrid;
use deep_causality::types::causaloid::BaseContext;
use deep_causality::types::causaloid::Causaloid;
use deep_causality::types::causaloid::ThresholdCause;
use deep_causality::types::causaloid_graph::CausaloidGraph;
use deep_causality::types::context_types::context_graph::Context;
use deep_causality::types::context_types::adjustable_data::AdjustableData;
use deep_causality::types::context_types::contextoid::Contextoid;
use deep_causality::types::context_types::contextoid::ContextoidType;
use deep_causality::types::context_types::node_types::RelationKind;
use deep_causality::types::context_types::node_types::Root;
use deep_causality::types::context_types::node_types::SpaceTime;
use deep_causality::types::context_types::node_types::TimeScale;
use deep_causality::types::index_store::IndexStore;
use deep_causality::types::inference::Inference;
use deep_causality::types::numerical::NumericalValue;
use deep_causality::types::observation::Observation;
use deep_causality::types::text::bool_to_text;
use deep_causality::types::text::i64_to_text;
use deep_causality::types::text::u64_to_text;
use deep_causality::utils::bench_utils_graph;
use deep_causality::utils::test_utils;

#[test]
fn test_numerical_value_rendering() {
    assert_eq!(NumericalValue::from_hundredths(78).to_text(), "0.78");
    assert_eq!(NumericalValue::from_hundredths(5).to_text(), "0.05");
    assert_eq!(NumericalValue::from_units(100).to_text(), "100.00");
    assert_eq!(NumericalValue::from_hundredths(-350).to_text(), "-3.50");
    assert_eq!(NumericalValue::from_hundredths(0).to_text(), "0.00");
}

#[test]
fn test_numerical_value_comparisons() {
    let small = NumericalValue::from_hundredths(55);
    let large = NumericalValue::from_hundredths(78);
    assert!(large.ge(&small));
    assert!(large.ge(&large));
    assert!(!small.ge(&large));
    assert!(large.gt(&small));
    assert!(!large.gt(&large));
    assert!(small.eq_value(&small));
    assert_eq!(NumericalValue::from_units(3).hundredths(), 300);
}

#[test]
fn test_decimal_text() {
    assert_eq!(u64_to_text(0), "0");
    assert_eq!(u64_to_text(7), "7");
    assert_eq!(u64_to_text(10570), "10570");
    assert_eq!(bool_to_text(true), "true");
    assert_eq!(bool_to_text(false), "false");
}

#[test]
fn test_error_rendering() {
    let e = CausalityError::new("test error message".to_string());
    assert_eq!(e.to_text(), "CausalityError: test error message");
    let e = CausalityGraphError::new("test error message".to_string());
    assert_eq!(e.to_text(), "CausalityGraphError: test error message");
    let e = CausalGraphIndexError::new("test error message".to_string());
    assert_eq!(e.0, "test error message");
    let e = ContextIndexError::new("test error message".to_string());
    assert_eq!(e.to_text(), "ContextIndexError: test error message");
}

#[test]
fn test_threshold_cause_fires_at_threshold() {
    let cause = ThresholdCause::new(NumericalValue::from_hundredths(55));
    assert_eq!(
        cause.evaluate(&NumericalValue::from_hundredths(54)).unwrap(),
        false
    );
    assert_eq!(
        cause.evaluate(&NumericalValue::from_hundredths(55)).unwrap(),
        true
    );
    assert_eq!(
        cause.evaluate(&NumericalValue::from_hundredths(99)).unwrap(),
        true
    );
}

#[test]
fn test_causaloid_below_threshold_stays_inactive() {
    let mut causaloid = test_utils::get_test_causaloid();
    let obs = NumericalValue::from_hundredths(12);
    let res = causaloid.verify_single_cause(&obs).unwrap();
    assert!(!res);
    assert!(!causaloid.is_active());
    assert!(causaloid.explain().is_err());
}

#[test]
fn test_causaloid_identity() {
    let causaloid = test_utils::get_test_causaloid();
    assert_eq!(causaloid.id(), 1);
    assert_eq!(
        causaloid.description(),
        "tests whether data exceeds threshold of 0.55"
    );
    assert!(causaloid.is_singleton());
}

#[test]
fn test_context_nodes_and_edges() {
    let mut context: BaseContext = Context::with_capacity(7, "test context", 4);
    assert_eq!(context.name(), "test context");
    assert_eq!(context.id(), 7);
    assert!(context.is_empty());
    assert_eq!(context.size(), 0);

    let a = context.add_node(Contextoid::new(1, ContextoidType::Root(Root::new(1))));
    let b = context.add_node(Contextoid::new(2, ContextoidType::Root(Root::new(2))));
    assert_eq!(a, 0);
    assert_eq!(b, 1);
    assert_eq!(context.size(), 2);
    assert_eq!(context.node_count(), 2);
    assert!(context.contains_node(a));
    assert!(!context.contains_node(5));
    assert_eq!(context.get_node(a).unwrap().id(), 1);

    assert!(context.add_edge(a, b, RelationKind::Temporal).is_ok());
    assert!(context.contains_edge(a, b));
    assert!(!context.contains_edge(b, a));
    assert_eq!(context.edge_count(), 1);
    // A duplicate edge is refused.
    assert!(context.add_edge(a, b, RelationKind::Temporal).is_err());
    // An edge to a missing node is refused.
    assert!(context.add_edge(a, 9, RelationKind::Temporal).is_err());

    assert!(context.remove_edge(a, b).is_ok());
    assert!(!context.contains_edge(a, b));
    assert!(context.remove_edge(a, b).is_err());

    assert!(context.remove_node(b).is_ok());
    assert!(!context.contains_node(b));
    assert_eq!(context.size(), 1);
    assert!(context.remove_node(b).is_err());
    // Index `a` survives the removal of `b`.
    assert!(context.contains_node(a));
}

#[test]
fn test_causaloid_graph_bookkeeping() {
    let mut g: CausaloidGraph<u64> = CausaloidGraph::new();
    assert!(g.is_empty());
    assert!(!g.contains_root_causaloid());
    assert_eq!(g.get_root_index(), None);

    let root = g.add_root_causaloid(10);
    assert_eq!(root, 0);
    assert!(g.contains_root_causaloid());
    assert_eq!(g.get_root_index(), Some(0));

    let a = g.add_causaloid(20);
    assert_eq!(a, 1);
    assert_eq!(g.size(), 2);
    assert_eq!(g.count_nodes(), 2);
    assert!(g.contains_causaloid(a));
    assert!(!g.contains_causaloid(9));
    assert_eq!(*g.get_causaloid(a).unwrap(), 20);
    assert!(g.get_causaloid(9).is_none());

    g.add_edge(root, a);
    assert!(g.contains_edge(root, a));
    assert!(!g.contains_edge(a, root));
    assert_eq!(g.count_edges(), 1);
}

#[test]
fn test_graph_builders_shapes() {
    let g = bench_utils_graph::build_linear_graph(10);
    assert_eq!(g.count_nodes(), 11);
    assert_eq!(g.count_edges(), 10);
    assert_eq!(g.get_root_index(), Some(0));
    assert!(g.contains_edge(0, 1));
    assert!(g.contains_edge(9, 10));
    assert!(!g.contains_edge(1, 0));

    let g = bench_utils_graph::build_multi_cause_graph();
    assert_eq!(g.count_nodes(), 4);
    assert_eq!(g.count_edges(), 4);
    assert!(g.contains_edge(0, 1));
    assert!(g.contains_edge(0, 2));
    assert!(g.contains_edge(1, 3));
    assert!(g.contains_edge(2, 3));

    let g = bench_utils_graph::build_multi_layer_cause_graph();
    assert_eq!(g.count_nodes(), 8);
    assert_eq!(g.count_edges(), 9);

    let g = bench_utils_graph::build_left_imbalanced_cause_graph();
    assert_eq!(g.count_nodes(), 6);
    assert_eq!(g.count_edges(), 5);
    assert!(g.contains_edge(1, 4));

    let g = bench_utils_graph::build_right_imbalanced_cause_graph();
    assert_eq!(g.count_nodes(), 6);
    assert_eq!(g.count_edges(), 5);
    assert!(g.contains_edge(3, 4));
}

#[test]
fn test_graph_and_data_fixtures() {
    let (g, data) = bench_utils_graph::get_small_multi_cause_graph_and_data();
    assert_eq!(g.count_nodes(), 4);
    assert_eq!(data.len(), 5);
    assert_eq!(data[0], NumericalValue::from_hundredths(99));

    let (g, data) = bench_utils_graph::get_small_multi_layer_cause_graph_and_data();
    assert_eq!(g.count_nodes(), 8);
    assert_eq!(data.len(), 9);

    let (g, data) = bench_utils_graph::get_small_linear_graph_and_data();
    assert_eq!(g.count_nodes(), 101);
    assert_eq!(data.len(), 101);

    let (g, data) = bench_utils_graph::get_left_imbalanced_cause_graph();
    assert_eq!(g.count_nodes(), 6);
    assert_eq!(data.len(), 7);

    let (g, data) = bench_utils_graph::get_right_imbalanced_cause_graph();
    assert_eq!(g.count_nodes(), 6);
    assert_eq!(data.len(), 7);
}

#[test]
fn test_observation_effect() {
    let o = Observation::new(
        3,
        NumericalValue::from_hundredths(80),
        NumericalValue::from_units(1),
    );
    assert_eq!(o.id(), 3);
    assert_eq!(o.observation(), NumericalValue::from_hundredths(80));
    assert_eq!(o.observed_effect(), NumericalValue::from_units(1));

    let threshold = NumericalValue::from_hundredths(55);
    let effect = NumericalValue::from_units(1);
    assert!(o.effect_observed(&threshold, &effect));

    let high_threshold = NumericalValue::from_hundredths(90);
    assert!(!o.effect_observed(&high_threshold, &effect));

    let other_effect = NumericalValue::from_units(0);
    assert!(!o.effect_observed(&threshold, &other_effect));
}

#[test]
fn test_observable_collection() {
    let observations = vec![
        Observation::new(1, NumericalValue::from_hundredths(80), NumericalValue::from_units(1)),
        Observation::new(2, NumericalValue::from_hundredths(20), NumericalValue::from_units(0)),
    ];
    assert_eq!(ObservableCollection::len(&observations), 2);
    assert!(!ObservableCollection::is_empty(&observations));
    assert_eq!(ObservableCollection::get_all_items(&observations).len(), 2);
}

#[test]
fn test_inference_record() {
    let inf = Inference::new(
        4,
        "does the observation reach the threshold",
        NumericalValue::from_hundredths(78),
        NumericalValue::from_hundredths(55),
        NumericalValue::from_units(1),
        NumericalValue::from_units(1),
    );
    assert_eq!(inf.id(), 4);
    assert_eq!(inf.question(), "does the observation reach the threshold");
    assert_eq!(inf.observation(), NumericalValue::from_hundredths(78));
    assert_eq!(inf.threshold(), NumericalValue::from_hundredths(55));
    assert_eq!(inf.effect(), NumericalValue::from_units(1));
    assert_eq!(inf.target(), NumericalValue::from_units(1));
    assert!(inf.is_inferable());

    let inf = Inference::new(
        5,
        "does the observation reach the threshold",
        NumericalValue::from_hundredths(12),
        NumericalValue::from_hundredths(55),
        NumericalValue::from_units(1),
        NumericalValue::from_units(1),
    );
    assert!(!inf.is_inferable());
}

#[test]
fn test_space_time_node() {
    let st = SpaceTime::new(9, TimeScale::Second, 30, 1, 2, 3, 4);
    assert_eq!(st.id(), 9);
    assert_eq!(st.time_scale(), TimeScale::Second);
    assert_eq!(st.time_unit(), 30);
    assert_eq!(st.x(), 1);
    assert_eq!(st.y(), 2);
    assert_eq!(st.z(), 3);
    assert_eq!(st.t(), 4);
}

#[test]
fn test_array_grid_cells() {
    let mut grid: ArrayGrid<i64, 3, 2, 1, 1> = ArrayGrid::new(0);
    assert_eq!(grid.get_2d(0, 0), 0);
    assert_eq!(grid.get_2d(2, 1), 0);
    grid.set_2d(2, 1, 42);
    assert_eq!(grid.get_2d(2, 1), 42);
    assert_eq!(grid.get_2d(2, 0), 0);
}

#[test]
fn test_test_context_fixture() {
    let context = test_utils::get_test_context();
    assert_eq!(context.size(), 1);
    assert_eq!(context.name(), "base context");
}

#[test]
fn test_signed_decimal_text() {
    assert_eq!(i64_to_text(0), "0");
    assert_eq!(i64_to_text(42), "42");
    assert_eq!(i64_to_text(-42), "-42");
    assert_eq!(i64_to_text(i64::MIN), "-9223372036854775808");
}

#[test]
fn test_adjustable_data_node() {
    let mut node = AdjustableData::new(3, -7);
    assert_eq!(node.id(), 3);
    assert_eq!(node.data(), -7);
    assert_eq!(node.to_text(), "AdjustableData: id: 3 data: -7");

    node.set_data(12);
    assert_eq!(node.data(), 12);

    // The default adjustment is a no-op that reports success.
    let grid: ArrayGrid<i64, 2, 2, 1, 1> = ArrayGrid::new(0);
    assert!(node.adjust(&grid).is_ok());
    assert_eq!(node.data(), 12);
}

#[test]
fn test_index_store_generations() {
    let mut store = IndexStore::new();
    assert_eq!(store.get_index(&4, true), None);
    assert_eq!(store.get_index(&4, false), None);

    store.set_index(4, 19, true);
    assert_eq!(store.get_index(&4, true), Some(19));
    assert_eq!(store.get_index(&4, false), None);

    store.set_index(4, 7, false);
    assert_eq!(store.get_index(&4, false), Some(7));
    assert_eq!(store.get_index(&4, true), Some(19));

    // An existing entry is overwritten in place.
    store.set_index(4, 23, true);
    assert_eq!(store.get_index(&4, true), Some(23));
}

#[test]
fn test_verify_single_cause_rejects_collection_shape() {
    let causal_coll = test_utils::get_test_causality_vec();
    let mut causaloid = Causaloid::from_causal_collection(2, causal_coll, "joint causes");
    let obs = NumericalValue::from_hundredths(99);
    let res = causaloid.verify_single_cause(&obs);
    assert!(res.is_err());
    assert!(!causaloid.is_active());
}

#[test]
fn test_numerical_value_extreme_rendering() {
    assert_eq!(
        NumericalValue::from_hundredths(i64::MIN).to_text(),
        "-92233720368547758.08"
    );
    assert_eq!(
        NumericalValue::from_hundredths(i64::MAX).to_text(),
        "92233720368547758.07"
    );
}
