use agent_eval::assertions::{count_passed, AssertionOutcome, AssertionRecorder};
use agent_eval::error::ExampleError;

#[test]
fn recorder_starts_empty() {
    let recorder = AssertionRecorder::new(Some(3));
    assert_eq!(recorder.run_count(), 0);
    assert_eq!(recorder.max_assertions(), Some(3));
    assert_eq!(recorder.passed_count(), 0);
    assert!(recorder.outcomes().is_empty());
}

#[test]
fn recorder_keeps_outcomes_in_order() {
    let mut recorder = AssertionRecorder::new(None);
    assert!(recorder.record("first".to_string(), true, None).is_ok());
    assert!(recorder.record("second".to_string(), false, Some("1 != 0".to_string())).is_ok());
    assert!(recorder.record("third".to_string(), true, None).is_ok());
    let outcomes = recorder.outcomes();
    assert_eq!(outcomes.len(), 3);
    assert_eq!(outcomes[0].id, "first");
    assert!(outcomes[0].passed);
    assert_eq!(outcomes[0].detail, None);
    assert_eq!(outcomes[1].id, "second");
    assert!(!outcomes[1].passed);
    assert_eq!(outcomes[1].detail, Some("1 != 0".to_string()));
    assert_eq!(outcomes[2].id, "third");
    assert_eq!(recorder.passed_count(), 2);
    assert!(recorder.contains_id(&"second".to_string()));
    assert!(!recorder.contains_id(&"fourth".to_string()));
}

#[test]
fn recorder_rejects_reused_id() {
    let mut recorder = AssertionRecorder::new(None);
    assert!(recorder.record("a".to_string(), true, None).is_ok());
    let second = recorder.record("a".to_string(), false, None);
    assert!(matches!(second, Err(ExampleError::DuplicateAssertionId(id)) if id == "a"));
    assert_eq!(recorder.run_count(), 1);
    assert!(recorder.outcomes()[0].passed);
}

#[test]
fn recorder_never_exceeds_declared_maximum() {
    let mut recorder = AssertionRecorder::new(Some(2));
    assert!(recorder.record("a".to_string(), true, None).is_ok());
    assert!(recorder.record("b".to_string(), true, None).is_ok());
    let third = recorder.record("c".to_string(), true, None);
    assert!(matches!(third, Err(ExampleError::TooManyAssertions { max: 2 })));
    assert_eq!(recorder.run_count(), 2);
    let again = recorder.record("d".to_string(), false, None);
    assert!(matches!(again, Err(ExampleError::TooManyAssertions { max: 2 })));
    assert_eq!(recorder.run_count(), 2);
}

#[test]
fn recorder_with_zero_budget_records_nothing() {
    let mut recorder = AssertionRecorder::new(Some(0));
    let first = recorder.record("a".to_string(), true, None);
    assert!(matches!(first, Err(ExampleError::TooManyAssertions { max: 0 })));
    assert_eq!(recorder.run_count(), 0);
}

#[test]
fn recorder_looks_at_budget_before_id() {
    let mut recorder = AssertionRecorder::new(Some(1));
    assert!(recorder.record("a".to_string(), true, None).is_ok());
    let reused = recorder.record("a".to_string(), true, None);
    assert!(matches!(reused, Err(ExampleError::TooManyAssertions { max: 1 })));
}

#[test]
fn recorder_hands_out_its_outcomes() {
    let mut recorder = AssertionRecorder::new(None);
    assert!(recorder.record("a".to_string(), false, None).is_ok());
    assert!(recorder.record("b".to_string(), true, None).is_ok());
    let outcomes: Vec<AssertionOutcome> = recorder.into_outcomes();
    assert_eq!(outcomes.len(), 2);
    assert_eq!(outcomes[0].id, "a");
    assert_eq!(outcomes[1].id, "b");
    assert_eq!(count_passed(&outcomes), 1);
}
