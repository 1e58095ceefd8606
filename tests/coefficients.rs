use fourier_series::{commit_or_keep, frequency, label, Bound, Coefficient, CoefficientSet, Series};

fn fresh(value: f64) -> Coefficient<f64> {
    Coefficient {
        value,
        min: -10.0,
        max: 10.0,
        min_text: "-10".to_string(),
        max_text: "10".to_string(),
    }
}

#[test]
fn new_set_is_empty() {
    let set: CoefficientSet<f64> = CoefficientSet::new();
    assert_eq!(set.len(), 0);
    assert!(set.values().is_empty());
}

#[test]
fn append_adds_default_entry_at_end() {
    let mut set = CoefficientSet::new();
    set.append(fresh(0.0));
    set.append(fresh(2.5));
    assert_eq!(set.len(), 2);
    let c = set.get(1);
    assert_eq!(c.value, 2.5);
    assert_eq!(c.min, -10.0);
    assert_eq!(c.max, 10.0);
    assert_eq!(set.bound_text(1, Bound::Min), "-10");
    assert_eq!(set.bound_text(1, Bound::Max), "10");
}

#[test]
fn append_then_remove_last_restores_set() {
    let mut set = CoefficientSet::new();
    set.append(fresh(1.0));
    set.append(fresh(-3.0));
    set.set_value(0, 4.0);
    let before = set.values();
    set.append(fresh(7.0));
    let removed = set.remove_last().expect("an entry was appended");
    assert_eq!(removed.value, 7.0);
    assert_eq!(set.len(), 2);
    assert_eq!(set.values(), before);
    assert_eq!(set.values(), vec![4.0, -3.0]);
}

#[test]
fn remove_last_on_empty_set_is_noop() {
    let mut set: CoefficientSet<f64> = CoefficientSet::new();
    assert!(set.remove_last().is_none());
    assert_eq!(set.len(), 0);
}

#[test]
fn remove_last_drops_only_the_last_entry() {
    let mut set = CoefficientSet::new();
    set.append(fresh(1.0));
    set.append(fresh(2.0));
    set.append(fresh(3.0));
    assert_eq!(set.remove_last().map(|c| c.value), Some(3.0));
    assert_eq!(set.values(), vec![1.0, 2.0]);
}

#[test]
fn set_value_does_not_clamp() {
    let mut set = CoefficientSet::new();
    set.append(fresh(0.0));
    set.set_value(0, 25.0);
    assert_eq!(set.get(0).value, 25.0);
    assert_eq!(*set.bound(0, Bound::Max), 10.0);
}

#[test]
fn rejected_bound_text_keeps_numeric_bound() {
    let mut set = CoefficientSet::new();
    set.append(fresh(0.0));
    set.set_bound_text(0, Bound::Max, "abc".to_string());
    let parsed = set.bound_text(0, Bound::Max).parse::<f64>().ok();
    assert!(!set.commit_bound_text(0, Bound::Max, parsed));
    assert_eq!(*set.bound(0, Bound::Max), 10.0);
    assert_eq!(set.bound_text(0, Bound::Max), "abc");
}

#[test]
fn accepted_bound_text_replaces_numeric_bound() {
    let mut set = CoefficientSet::new();
    set.append(fresh(0.0));
    set.set_bound_text(0, Bound::Min, "-2.5".to_string());
    let parsed = set.bound_text(0, Bound::Min).parse::<f64>().ok();
    assert!(set.commit_bound_text(0, Bound::Min, parsed));
    assert_eq!(*set.bound(0, Bound::Min), -2.5);
    assert_eq!(*set.bound(0, Bound::Max), 10.0);
    assert_eq!(set.bound_text(0, Bound::Min), "-2.5");
}

#[test]
fn bound_becomes_valid_mid_edit() {
    let mut set = CoefficientSet::new();
    set.append(fresh(0.0));
    set.set_bound_text(0, Bound::Max, "1e".to_string());
    let parsed = set.bound_text(0, Bound::Max).parse::<f64>().ok();
    set.commit_bound_text(0, Bound::Max, parsed);
    assert_eq!(*set.bound(0, Bound::Max), 10.0);
    set.set_bound_text(0, Bound::Max, "1e1".to_string());
    let parsed = set.bound_text(0, Bound::Max).parse::<f64>().ok();
    set.commit_bound_text(0, Bound::Max, parsed);
    assert_eq!(*set.bound(0, Bound::Max), 10.0);
    set.set_bound_text(0, Bound::Max, "3".to_string());
    let parsed = set.bound_text(0, Bound::Max).parse::<f64>().ok();
    set.commit_bound_text(0, Bound::Max, parsed);
    assert_eq!(*set.bound(0, Bound::Max), 3.0);
}

#[test]
fn commit_or_keep_replaces_or_keeps() {
    let mut slot = 1.5_f64;
    assert!(!commit_or_keep(&mut slot, None));
    assert_eq!(slot, 1.5);
    assert!(commit_or_keep(&mut slot, Some(-4.0)));
    assert_eq!(slot, -4.0);
}

#[test]
fn cosine_labels_start_at_zero() {
    assert_eq!(label(Series::Cosine, 0), "A0");
    assert_eq!(label(Series::Cosine, 7), "A7");
    assert_eq!(label(Series::Cosine, 12), "A12");
    assert_eq!(label(Series::Cosine, 305), "A305");
}

#[test]
fn sine_labels_start_at_one() {
    assert_eq!(label(Series::Sine, 0), "B1");
    assert_eq!(label(Series::Sine, 9), "B10");
    assert_eq!(label(Series::Sine, 11), "B12");
}

#[test]
fn label_of_largest_index_does_not_overflow() {
    let expected = format!("B{}", usize::MAX as u128 + 1);
    assert_eq!(label(Series::Sine, usize::MAX), expected);
    assert_eq!(label(Series::Cosine, usize::MAX), format!("A{}", usize::MAX));
}

#[test]
fn cosine_frequency_is_index_and_sine_frequency_is_index_plus_one() {
    assert_eq!(frequency(Series::Cosine, 0), 0);
    assert_eq!(frequency(Series::Cosine, 4), 4);
    assert_eq!(frequency(Series::Sine, 0), 1);
    assert_eq!(frequency(Series::Sine, 4), 5);
    assert_eq!(frequency(Series::Sine, usize::MAX), usize::MAX as u128 + 1);
}
