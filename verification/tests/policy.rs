use serde_json::Value;
use tauri_async_handler::callback::{encode_outcome, Delivery};
use tauri_async_handler::worker::Concurrency;

#[test]
fn from_limit_reads_zero_as_unbounded() {
    assert!(matches!(Concurrency::from_limit(None), Concurrency::Unbounded));
    assert!(matches!(Concurrency::from_limit(Some(0)), Concurrency::Unbounded));
    assert!(matches!(Concurrency::from_limit(Some(1)), Concurrency::Bounded(1)));
    assert!(matches!(Concurrency::from_limit(Some(usize::MAX)), Concurrency::Bounded(usize::MAX)));
}

#[test]
fn limit_is_the_bound() {
    assert_eq!(Concurrency::Unbounded.limit(), None);
    assert_eq!(Concurrency::Bounded(0).limit(), None);
    assert_eq!(Concurrency::Bounded(7).limit(), Some(7));
}

#[test]
fn has_free_slot_compares_with_the_bound() {
    assert!(Concurrency::Unbounded.has_free_slot(0));
    assert!(Concurrency::Unbounded.has_free_slot(usize::MAX));
    assert!(Concurrency::Bounded(0).has_free_slot(1000));
    assert!(Concurrency::Bounded(2).has_free_slot(0));
    assert!(Concurrency::Bounded(2).has_free_slot(1));
    assert!(!Concurrency::Bounded(2).has_free_slot(2));
    assert!(!Concurrency::Bounded(2).has_free_slot(3));
}

#[test]
fn encode_outcome_encodes_success_and_keeps_failure() {
    let value = serde_json::from_str::<Value>(r#"{"hello":"world"}"#).unwrap();
    assert_eq!(encode_outcome(Ok(value)), Some(Ok(r#"{"hello":"world"}"#.to_string())));
    assert_eq!(encode_outcome(Ok(Value::Bool(true))), Some(Ok("true".to_string())));
    assert_eq!(encode_outcome(Err("boom".to_string())), Some(Err("boom".to_string())));
}

#[test]
fn delivery_picks_the_continuation_by_the_result() {
    let ok = Delivery::new("cb".to_string(), "er".to_string(), Ok("1".to_string()));
    assert!(ok.is_success());
    assert_eq!(ok.continuation(), "cb");
    assert_eq!(ok.argument(), "1");
    let failed = Delivery::new("cb".to_string(), "er".to_string(), Err("bad".to_string()));
    assert!(!failed.is_success());
    assert_eq!(failed.continuation(), "er");
    assert_eq!(failed.argument(), "bad");
}

#[test]
fn rejected_delivery_is_a_fixed_failure() {
    let rejected = Delivery::rejected("cb".to_string(), "er".to_string());
    assert_eq!(
        rejected,
        Delivery {
            callback_id: "cb".to_string(),
            error_id: "er".to_string(),
            result: Err("Failed to execute command".to_string()),
        }
    );
    assert_eq!(rejected.continuation(), "er");
}
