use vstd::prelude::*;

use crate::env::EnvironmentState;
use crate::outcome::AdapterFault;
use crate::u256::U256;

verus! {

/// The interpreter's terminal outcome for one whole invocation, consumed
/// exactly once by the dispatch routine.
#[derive(Debug)]
pub enum TerminalResult {
    /// The interpreter stopped normally, reporting the gas it left.
    NormalCompletion { gas_left: U256 },
    /// The interpreter produced return data; the flag tells a normal
    /// return (state applied) from a revert (state discarded).
    CompletionWithReturnData { gas_left: U256, data: Vec<u8>, apply_state: bool },
    /// The interpreter failed inside its own execution.
    ExecutionError,
    /// The adapter layer failed underneath the interpreter.
    AdapterError,
}

/// The one host termination primitive an invocation ends with.
#[derive(Debug)]
pub enum TerminationAction {
    /// Finish with no data.
    Finish,
    /// Finish, filling the return buffer with the given data.
    FinishData(Vec<u8>),
    /// Revert, filling the return buffer with the given data.
    RevertData(Vec<u8>),
    /// Self-destruct to the given 20-byte beneficiary address.
    SelfDestruct(Vec<u8>),
    /// Irrecoverable failure.
    Abort,
}

/// What the dispatch routine does once the interpreter has terminated:
/// how much gas to charge the host meter first — nothing when aborting —
/// and which termination primitive to invoke, exactly one.
#[derive(Debug)]
pub struct TerminationPlan {
    pub charge: Option<u64>,
    pub action: TerminationAction,
}

/// The plan a terminal result maps to.
///
/// A completion is charged the gas observed at dispatch start minus the
/// gas the interpreter reports left; a report exceeding the start value
/// can never be legitimate and aborts instead.  A normal completion
/// finishes — or self-destructs, where the environment recorded a
/// beneficiary.  Return data finishes or reverts on the apply-state flag,
/// carrying the data either way.  Interpreter and adapter errors abort.
pub open spec fn termination_plan(
    start_gas: u64,
    result: TerminalResult,
    env: EnvironmentState,
) -> TerminationPlan {
    match result {
        TerminalResult::NormalCompletion { gas_left } => {
            if gas_left.value() > start_gas {
                TerminationPlan { charge: None, action: TerminationAction::Abort }
            } else {
                TerminationPlan {
                    charge: Some((start_gas - gas_left.value()) as u64),
                    action: match env.selfdestruct_address {
                        Some(b) => TerminationAction::SelfDestruct(b),
                        None => TerminationAction::Finish,
                    },
                }
            }
        },
        TerminalResult::CompletionWithReturnData { gas_left, data, apply_state } => {
            if gas_left.value() > start_gas {
                TerminationPlan { charge: None, action: TerminationAction::Abort }
            } else {
                TerminationPlan {
                    charge: Some((start_gas - gas_left.value()) as u64),
                    action: if apply_state {
                        TerminationAction::FinishData(data)
                    } else {
                        TerminationAction::RevertData(data)
                    },
                }
            }
        },
        TerminalResult::ExecutionError => TerminationPlan {
            charge: None,
            action: TerminationAction::Abort,
        },
        TerminalResult::AdapterError => TerminationPlan {
            charge: None,
            action: TerminationAction::Abort,
        },
    }
}

/// Maps the interpreter's terminal result onto the termination plan,
/// consuming the environment whose invocation is over.
pub fn plan_termination(start_gas: u64, result: TerminalResult, env: EnvironmentState) -> (r:
    TerminationPlan)
    ensures
        r == termination_plan(start_gas, result, env),
{
    match result {
        TerminalResult::NormalCompletion { gas_left } => {
            match gas_left.checked_u64() {
                Some(g) => {
                    if g <= start_gas {
                        TerminationPlan {
                            charge: Some(start_gas - g),
                            action: match env.selfdestruct_address {
                                Some(b) => TerminationAction::SelfDestruct(b),
                                None => TerminationAction::Finish,
                            },
                        }
                    } else {
                        TerminationPlan { charge: None, action: TerminationAction::Abort }
                    }
                },
                None => TerminationPlan { charge: None, action: TerminationAction::Abort },
            }
        },
        TerminalResult::CompletionWithReturnData { gas_left, data, apply_state } => {
            match gas_left.checked_u64() {
                Some(g) => {
                    if g <= start_gas {
                        TerminationPlan {
                            charge: Some(start_gas - g),
                            action: if apply_state {
                                TerminationAction::FinishData(data)
                            } else {
                                TerminationAction::RevertData(data)
                            },
                        }
                    } else {
                        TerminationPlan { charge: None, action: TerminationAction::Abort }
                    }
                },
                None => TerminationPlan { charge: None, action: TerminationAction::Abort },
            }
        },
        TerminalResult::ExecutionError => TerminationPlan {
            charge: None,
            action: TerminationAction::Abort,
        },
        TerminalResult::AdapterError => TerminationPlan {
            charge: None,
            action: TerminationAction::Abort,
        },
    }
}

/// The termination a fatal adapter fault leads to: always the abort
/// primitive, never a finish or a revert — a fault is a protocol
/// mismatch, not a contract-level result.
pub fn fault_termination(fault: AdapterFault) -> (r: TerminationAction)
    ensures
        r is Abort,
{
    match fault {
        AdapterFault::UnrecognizedCallKind => TerminationAction::Abort,
        AdapterFault::UnrecognizedHostStatus => TerminationAction::Abort,
        AdapterFault::GasOverflow => TerminationAction::Abort,
        AdapterFault::ValueOverflow => TerminationAction::Abort,
    }
}

/// After a normal completion the host meter is charged exactly the gas
/// observed at dispatch start minus the gas the interpreter reports left,
/// whenever that report does not exceed the start; a report above the
/// start charges nothing and aborts.
pub proof fn lemma_gas_charge(start_gas: u64, gas_left: U256, env: EnvironmentState)
    ensures
        gas_left.value() <= start_gas ==> (termination_plan(
            start_gas,
            TerminalResult::NormalCompletion { gas_left },
            env,
        ).charge matches Some(c) && c == start_gas - gas_left.value()),
        gas_left.value() > start_gas ==> termination_plan(
            start_gas,
            TerminalResult::NormalCompletion { gas_left },
            env,
        ).charge is None && termination_plan(
            start_gas,
            TerminalResult::NormalCompletion { gas_left },
            env,
        ).action is Abort,
{
}

/// Return data routes on the apply-state flag: applied state finishes
/// with the data, discarded state reverts with the data, and the payload
/// is preserved byte for byte either way.
pub proof fn lemma_return_data_routing(
    start_gas: u64,
    gas_left: U256,
    data: Vec<u8>,
    apply_state: bool,
    env: EnvironmentState,
)
    requires
        gas_left.value() <= start_gas,
    ensures
        apply_state ==> (termination_plan(
            start_gas,
            TerminalResult::CompletionWithReturnData { gas_left, data, apply_state },
            env,
        ).action matches TerminationAction::FinishData(d) && d@ == data@),
        !apply_state ==> (termination_plan(
            start_gas,
            TerminalResult::CompletionWithReturnData { gas_left, data, apply_state },
            env,
        ).action matches TerminationAction::RevertData(d) && d@ == data@),
{
}

/// A recorded self-destruct beneficiary takes the place of the normal
/// finish: the terminal normal completion self-destructs to exactly that
/// address and does not also finish.
pub proof fn lemma_selfdestruct_routing(start_gas: u64, gas_left: U256, env: EnvironmentState)
    requires
        env.selfdestruct_address is Some,
        gas_left.value() <= start_gas,
    ensures
        (termination_plan(
            start_gas,
            TerminalResult::NormalCompletion { gas_left },
            env,
        ).action matches TerminationAction::SelfDestruct(a) && Some(a)
            == env.selfdestruct_address),
        !(termination_plan(
            start_gas,
            TerminalResult::NormalCompletion { gas_left },
            env,
        ).action is Finish),
{
}

} // verus!
