use fizzy::outcome::{ExecutionRecord, ExecutionResult, Outcome};
use fizzy::value::Value;

fn result(trapped: bool, has_value: bool, value: Value) -> ExecutionResult {
    ExecutionResult::from(ExecutionRecord { trapped, has_value, value })
}

#[test]
fn return_without_value() {
    let r = result(false, false, Value::from_i32(9));
    assert!(!r.trapped());
    assert!(r.value().is_none());
    assert_eq!(r.outcome(), Outcome::Return(None));
}

#[test]
fn return_of_constant() {
    let r = result(false, true, Value::from_i32(42));
    assert!(!r.trapped());
    assert!(r.value().is_some());
    assert_eq!(r.value().unwrap().as_i32(), 42);
    assert_eq!(r.outcome(), Outcome::Return(Some(Value::from_i32(42))));
}

#[test]
fn return_of_quotient() {
    let r = result(false, true, Value::from_i32(21));
    assert!(!r.trapped());
    assert_eq!(r.value().unwrap().as_i32(), 21);
}

#[test]
fn trap_hides_value() {
    let r = result(true, false, Value::from_i32(0));
    assert!(r.trapped());
    assert!(r.value().is_none());
    assert_eq!(r.outcome(), Outcome::Trap);
    let r = result(true, true, Value::from_i32(7));
    assert!(r.trapped());
    assert!(r.value().is_none());
    assert_eq!(r.outcome(), Outcome::Trap);
}

#[test]
fn record_comes_back_unchanged() {
    let rec = ExecutionRecord { trapped: false, has_value: true, value: Value::from_u64(5) };
    let back: ExecutionRecord = ExecutionResult::from_record(rec).into();
    assert_eq!(back, rec);
    assert_eq!(ExecutionResult::from_record(rec).into_record(), rec);
}
