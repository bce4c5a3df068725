use deep_causality::protocols::causable::Causable;
use deep_causality::protocols::causable::CausableReasoning;
use deep_causality::types::numerical::NumericalValue;
use deep_causality::utils::test_utils::get_test_causality_array;

#[test]
fn test_all_active() {
    let mut col = get_test_causality_array();
    assert!(!col.get_all_causes_true());

    let obs = NumericalValue::from_hundredths(99);
    for cause in col.iter_mut() {
        cause.verify_single_cause(&obs).expect("verify failed");
    }
    assert!(col.get_all_causes_true());
}

#[test]
fn test_number_active() {
    let mut col = get_test_causality_array();
    assert!(!col.get_all_causes_true());

    let obs = NumericalValue::from_hundredths(99);
    for cause in col.iter_mut() {
        cause.verify_single_cause(&obs).expect("verify failed");
    }
    assert!(col.get_all_causes_true());
    assert_eq!(NumericalValue::from_units(10), col.number_active());
}

#[test]
fn test_percent_active() {
    let mut col = get_test_causality_array();
    assert!(!col.get_all_causes_true());

    let obs = NumericalValue::from_hundredths(99);
    for cause in col.iter_mut() {
        cause.verify_single_cause(&obs).expect("verify failed");
    }
    assert!(col.get_all_causes_true());
    assert_eq!(NumericalValue::from_units(10), col.number_active());
    assert_eq!(NumericalValue::from_units(100), col.percent_active());
}

#[test]
fn causable_arr_tests_test_get_all_items() {
    let col = get_test_causality_array();
    let all_items = col.get_all_items();

    let exp_len = col.len();
    let actual_len = all_items.len();
    assert_eq!(exp_len, actual_len);
}

#[test]
fn causable_arr_tests_test_len() {
    let col = get_test_causality_array();
    assert_eq!(10, col.len());
}

#[test]
fn causable_arr_tests_test_is_empty() {
    let col = get_test_causality_array();
    assert!(!col.is_empty());
}

#[test]
fn test_to_vec() {
    let col = get_test_causality_array();
    assert_eq!(10, CausableReasoning::to_vec(&col).len());
}
