use runevm::outcome::AdapterFault;
use runevm::outcome::CallKind;
use runevm::outcome::CallOutcome;
use runevm::outcome::HostCallPrimitive;
use runevm::outcome::HostCallStatus;
use runevm::outcome::call_gas_used;
use runevm::outcome::classify_call;
use runevm::outcome::plan_call;
use runevm::outcome::should_fetch_return_data;
use runevm::u256::U256;

#[test]
fn plan_call_plain_call() {
    let plan = plan_call(CallKind::Call, U256::from_u64(21000), Some(U256::from_u64(5))).unwrap();
    assert_eq!(plan.primitive, HostCallPrimitive::Mutable);
    assert_eq!(plan.gas_limit, 21000);
    let value = plan.value_le.unwrap();
    assert_eq!(value.len(), 16);
    assert_eq!(value[0], 5);
    assert!(value[1..].iter().all(|&x| x == 0));
}

#[test]
fn plan_call_call_code() {
    let plan = plan_call(CallKind::CallCode, U256::from_u64(300), Some(U256::from_u64(7))).unwrap();
    assert_eq!(plan.primitive, HostCallPrimitive::Code);
    assert_eq!(plan.gas_limit, 300);
    assert_eq!(plan.value_le.as_ref().unwrap()[0], 7);
}

#[test]
fn plan_call_delegate_has_no_value() {
    let plan = plan_call(CallKind::DelegateCall, U256::from_u64(300), None).unwrap();
    assert_eq!(plan.primitive, HostCallPrimitive::Delegate);
    assert_eq!(plan.gas_limit, 300);
    assert!(plan.value_le.is_none());
}

#[test]
fn plan_call_static_has_no_value() {
    let plan = plan_call(CallKind::StaticCall, U256::from_u64(300), None).unwrap();
    assert_eq!(plan.primitive, HostCallPrimitive::Static);
    assert!(plan.value_le.is_none());
}

#[test]
fn plan_call_missing_value_means_zero() {
    let plan = plan_call(CallKind::Call, U256::from_u64(300), None).unwrap();
    let value = plan.value_le.unwrap();
    assert!(value.iter().all(|&x| x == 0));
}

#[test]
fn plan_call_unrecognized_kind_is_fatal() {
    let fault = plan_call(CallKind::Unrecognized, U256::from_u64(300), None).unwrap_err();
    assert_eq!(fault, AdapterFault::UnrecognizedCallKind);
}

#[test]
fn plan_call_gas_beyond_u64_is_fatal() {
    let wide_gas = U256 { lo: 1u128 << 64, hi: 0 };
    let fault = plan_call(CallKind::Call, wide_gas, None).unwrap_err();
    assert_eq!(fault, AdapterFault::GasOverflow);
}

#[test]
fn plan_call_value_beyond_u128_is_fatal() {
    let wide_value = U256 { lo: 0, hi: 1 };
    let fault = plan_call(CallKind::Call, U256::from_u64(300), Some(wide_value)).unwrap_err();
    assert_eq!(fault, AdapterFault::ValueOverflow);
}

#[test]
fn return_data_fetched_for_success_and_revert_only() {
    assert!(should_fetch_return_data(HostCallStatus::Successful));
    assert!(should_fetch_return_data(HostCallStatus::Revert));
    assert!(!should_fetch_return_data(HostCallStatus::Failure));
    assert!(!should_fetch_return_data(HostCallStatus::Unknown));
}

#[test]
fn gas_used_is_the_meter_drop() {
    assert_eq!(call_gas_used(1000, 250), Some(750));
    assert_eq!(call_gas_used(1000, 1000), Some(0));
    assert_eq!(call_gas_used(250, 1000), None);
}

#[test]
fn classify_success_carries_data() {
    let outcome = classify_call(HostCallStatus::Successful, 42, vec![1, 2, 3]).unwrap();
    match outcome {
        CallOutcome::Success { gas_used, data } => {
            assert_eq!(gas_used, 42);
            assert_eq!(data, vec![1, 2, 3]);
        },
        other => panic!("expected success, got {:?}", other),
    }
}

#[test]
fn classify_failure_carries_nothing() {
    let outcome = classify_call(HostCallStatus::Failure, 42, vec![1, 2, 3]).unwrap();
    assert!(matches!(outcome, CallOutcome::Failed));
}

#[test]
fn classify_revert_carries_data() {
    let outcome = classify_call(HostCallStatus::Revert, 7, vec![9, 9]).unwrap();
    match outcome {
        CallOutcome::Reverted { gas_used, data } => {
            assert_eq!(gas_used, 7);
            assert_eq!(data, vec![9, 9]);
        },
        other => panic!("expected revert, got {:?}", other),
    }
}

#[test]
fn classify_unknown_status_is_fatal() {
    let fault = classify_call(HostCallStatus::Unknown, 7, vec![]).unwrap_err();
    assert_eq!(fault, AdapterFault::UnrecognizedHostStatus);
}
