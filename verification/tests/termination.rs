use runevm::context::build_context;
use runevm::dispatch::TerminalResult;
use runevm::dispatch::TerminationAction;
use runevm::dispatch::fault_termination;
use runevm::dispatch::plan_termination;
use runevm::env::EnvironmentState;
use runevm::outcome::AdapterFault;
use runevm::u256::U256;

fn fresh_env() -> EnvironmentState {
    let context = build_context(
        vec![0x60, 0x00],
        vec![],
        vec![0x11; 20],
        vec![0x22; 20],
        vec![0x33; 20],
        &vec![0u8; 16],
        100_000,
        vec![0x44; 20],
        &vec![0u8; 32],
        7,
        1_600_000_000,
        8_000_000,
    );
    EnvironmentState::new(context)
}

#[test]
fn normal_completion_charges_the_difference() {
    let result = TerminalResult::NormalCompletion { gas_left: U256::from_u64(40_000) };
    let plan = plan_termination(100_000, result, fresh_env());
    assert_eq!(plan.charge, Some(60_000));
    assert!(matches!(plan.action, TerminationAction::Finish));
}

#[test]
fn normal_completion_with_all_gas_left_charges_nothing() {
    let result = TerminalResult::NormalCompletion { gas_left: U256::from_u64(100_000) };
    let plan = plan_termination(100_000, result, fresh_env());
    assert_eq!(plan.charge, Some(0));
    assert!(matches!(plan.action, TerminationAction::Finish));
}

#[test]
fn gas_left_above_start_is_fatal() {
    let result = TerminalResult::NormalCompletion { gas_left: U256::from_u64(100_001) };
    let plan = plan_termination(100_000, result, fresh_env());
    assert_eq!(plan.charge, None);
    assert!(matches!(plan.action, TerminationAction::Abort));
}

#[test]
fn gas_left_beyond_u64_is_fatal() {
    let wide = U256 { lo: 1u128 << 64, hi: 0 };
    let result = TerminalResult::NormalCompletion { gas_left: wide };
    let plan = plan_termination(100_000, result, fresh_env());
    assert_eq!(plan.charge, None);
    assert!(matches!(plan.action, TerminationAction::Abort));
}

#[test]
fn applied_return_data_finishes_with_the_payload() {
    let result = TerminalResult::CompletionWithReturnData {
        gas_left: U256::from_u64(30_000),
        data: vec![0xde, 0xad],
        apply_state: true,
    };
    let plan = plan_termination(100_000, result, fresh_env());
    assert_eq!(plan.charge, Some(70_000));
    match plan.action {
        TerminationAction::FinishData(d) => assert_eq!(d, vec![0xde, 0xad]),
        other => panic!("expected finish with data, got {:?}", other),
    }
}

#[test]
fn discarded_return_data_reverts_with_the_payload() {
    let result = TerminalResult::CompletionWithReturnData {
        gas_left: U256::from_u64(30_000),
        data: vec![0xde, 0xad],
        apply_state: false,
    };
    let plan = plan_termination(100_000, result, fresh_env());
    assert_eq!(plan.charge, Some(70_000));
    match plan.action {
        TerminationAction::RevertData(d) => assert_eq!(d, vec![0xde, 0xad]),
        other => panic!("expected revert with data, got {:?}", other),
    }
}

#[test]
fn pending_selfdestruct_replaces_the_finish() {
    let mut env = fresh_env();
    env.record_selfdestruct(vec![0xaa; 20]);
    let result = TerminalResult::NormalCompletion { gas_left: U256::from_u64(40_000) };
    let plan = plan_termination(100_000, result, env);
    assert_eq!(plan.charge, Some(60_000));
    match plan.action {
        TerminationAction::SelfDestruct(a) => assert_eq!(a, vec![0xaa; 20]),
        other => panic!("expected self-destruct, got {:?}", other),
    }
}

#[test]
fn interpreter_error_aborts() {
    let plan = plan_termination(100_000, TerminalResult::ExecutionError, fresh_env());
    assert_eq!(plan.charge, None);
    assert!(matches!(plan.action, TerminationAction::Abort));
}

#[test]
fn adapter_error_aborts() {
    let plan = plan_termination(100_000, TerminalResult::AdapterError, fresh_env());
    assert_eq!(plan.charge, None);
    assert!(matches!(plan.action, TerminationAction::Abort));
}

#[test]
fn every_fault_aborts() {
    for fault in [
        AdapterFault::UnrecognizedCallKind,
        AdapterFault::UnrecognizedHostStatus,
        AdapterFault::GasOverflow,
        AdapterFault::ValueOverflow,
    ] {
        assert!(matches!(fault_termination(fault), TerminationAction::Abort));
    }
}

#[test]
fn environment_starts_clean_and_records_the_beneficiary() {
    let mut env = fresh_env();
    assert!(env.selfdestruct_address.is_none());
    assert_eq!(env.depth(), 0);
    assert!(!env.is_static());
    env.record_selfdestruct(vec![0x0b; 20]);
    assert_eq!(env.selfdestruct_address, Some(vec![0x0b; 20]));
}

#[test]
fn context_carries_the_host_answers() {
    let context = build_context(
        vec![1, 2, 3],
        vec![4, 5],
        vec![0x11; 20],
        vec![0x22; 20],
        vec![0x33; 20],
        &{
            let mut price = vec![0u8; 16];
            price[0] = 0x0a;
            price
        },
        55_555,
        vec![0x44; 20],
        &{
            let mut difficulty = vec![0u8; 32];
            difficulty[1] = 0x01;
            difficulty
        },
        7,
        1_600_000_000,
        8_000_000,
    );
    assert_eq!(context.code, vec![1, 2, 3]);
    assert_eq!(context.calldata, vec![4, 5]);
    assert_eq!(context.address, vec![0x11; 20]);
    assert_eq!(context.sender, vec![0x22; 20]);
    assert_eq!(context.origin, vec![0x33; 20]);
    assert_eq!(context.gas_price.lo, 0x0a);
    assert_eq!(context.start_gas, 55_555);
    assert_eq!(context.coinbase, vec![0x44; 20]);
    assert_eq!(context.difficulty.lo, 0x100);
    assert_eq!(context.number, 7);
    assert_eq!(context.timestamp, 1_600_000_000);
    assert_eq!(context.block_gas_limit, 8_000_000);
}
