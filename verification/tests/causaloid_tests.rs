use deep_causality::protocols::causable::Causable;
use deep_causality::types::causaloid::Causaloid;
use deep_causality::types::numerical::IdentificationValue;
use deep_causality::types::numerical::NumericalValue;
use deep_causality::utils::test_utils;

#[test]
fn test_from_causal_collection() {
    let id: IdentificationValue = 01;
    let description = "tests whether data exceeds threshold of 0.55";
    let causal_coll = test_utils::get_test_causality_vec();

    let data = [
        NumericalValue::from_hundredths(89),
        NumericalValue::from_hundredths(89),
        NumericalValue::from_hundredths(99),
    ];
    assert_eq!(data.len(), causal_coll.len());

    let causaloid = Causaloid::from_causal_collection(id, causal_coll, description);
    assert!(!causaloid.is_singleton());

    assert!(causaloid.causal_collection().is_some());
    assert!(causaloid.causal_graph().is_none());
    assert!(causaloid.context().is_none());
}

#[test]
fn test_from_causal_collection_with_context() {
    let id: IdentificationValue = 01;
    let description = "tests whether data exceeds threshold of 0.55";
    let causal_coll = test_utils::get_test_causality_vec();

    let data = [
        NumericalValue::from_hundredths(89),
        NumericalValue::from_hundredths(89),
        NumericalValue::from_hundredths(99),
    ];
    assert_eq!(data.len(), causal_coll.len());

    let context = &test_utils::get_test_context();

    let causaloid = Causaloid::from_causal_collection_with_context(
        id,
        causal_coll,
        Some(context),
        description,
    );

    assert!(!causaloid.is_singleton());
    assert!(causaloid.causal_collection().is_some());
    assert!(causaloid.causal_graph().is_none());
    assert!(causaloid.context().is_some());
}

#[test]
fn test_explain() {
    let mut causaloid = test_utils::get_test_causaloid();
    assert!(!causaloid.is_active());

    // An error is expected because the causaloid has not yet been activated.
    let actual = causaloid.explain();
    assert!(actual.is_err());

    let obs = NumericalValue::from_hundredths(78);
    let res = causaloid.verify_single_cause(&obs).unwrap();
    assert!(res);
    assert!(causaloid.is_active());

    let actual = causaloid.explain().unwrap();
    let expected =
        "Causaloid: 1 tests whether data exceeds threshold of 0.55 on last data 0.78 evaluated to true"
        .to_string();
    assert_eq!(actual, expected);
}

#[test]
fn test_verify_single_cause() {
    let mut causaloid = test_utils::get_test_causaloid();
    assert!(!causaloid.is_active());

    let obs = NumericalValue::from_hundredths(78);
    let res = causaloid.verify_single_cause(&obs).unwrap();
    assert!(res);
    assert!(causaloid.is_active());
}

#[test]
fn test_to_string() {
    let causaloid = test_utils::get_test_causaloid();
    assert!(!causaloid.is_active());

    let expected = format!(
        "Causaloid id: 1 \n Causaloid type: Singleton \n description: tests whether data exceeds threshold of 0.55 is active: false"
    );
    let actual = causaloid.to_text();

    assert_eq!(actual, expected);
}
