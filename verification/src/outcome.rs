use vstd::prelude::*;

use crate::endian::le_bytes_value;
use crate::endian::u128_to_le_bytes;
use crate::u256::U256;

verus! {

/// The call types the interpreter can ask for.  The four recognized kinds
/// each map to one host call primitive; anything else is a protocol
/// mismatch between interpreter and adapter.
#[derive(Clone, Copy, PartialEq, Eq, Structural, Debug)]
pub enum CallKind {
    /// A plain call carrying value to the receiver.
    Call,
    /// Runs the receiver's code in the caller's own context, carrying value.
    CallCode,
    /// Runs the receiver's code keeping the current sender and value.
    DelegateCall,
    /// A call that must not mutate state.
    StaticCall,
    /// Any call type outside the four the host backs.
    Unrecognized,
}

/// The host's four call primitives.
#[derive(Clone, Copy, PartialEq, Eq, Structural, Debug)]
pub enum HostCallPrimitive {
    Mutable,
    Code,
    Delegate,
    Static,
}

/// How the host reports the outcome of a call primitive.
#[derive(Clone, Copy, PartialEq, Eq, Structural, Debug)]
pub enum HostCallStatus {
    Successful,
    Failure,
    Revert,
    /// Any report outside the three defined ones.
    Unknown,
}

/// Conditions the adapter treats as fatal.  Each indicates a mismatch
/// between interpreter, adapter and host — never a contract-level result —
/// and terminates the whole invocation.
#[derive(Clone, Copy, PartialEq, Eq, Structural, Debug)]
pub enum AdapterFault {
    /// A call type outside the four the host backs.
    UnrecognizedCallKind,
    /// A host call outcome outside successful, failure and revert.
    UnrecognizedHostStatus,
    /// A gas amount that does not fit the host's 64-bit gas unit.
    GasOverflow,
    /// A transfer value that does not fit the host's 128-bit ether unit.
    ValueOverflow,
}

/// A nested call, ready for the host: which primitive to invoke, the gas
/// limit in the host's unit, and the value in the host's 16-byte
/// little-endian form — present exactly for the primitives that carry
/// value.  The call data goes to the host as the interpreter gave it.
#[derive(Debug)]
pub struct CallPlan {
    pub primitive: HostCallPrimitive,
    pub gas_limit: u64,
    pub value_le: Option<Vec<u8>>,
}

/// The outcome of a nested call as the interpreter consumes it.  Return
/// data is carried exactly by the success and revert outcomes.
#[derive(Debug)]
pub enum CallOutcome {
    /// The nested call succeeded; carries the gas it consumed and its
    /// return data.
    Success { gas_used: u64, data: Vec<u8> },
    /// The nested call failed; there is no return data.
    Failed,
    /// The nested call reverted; carries the gas it consumed and its
    /// return data.
    Reverted { gas_used: u64, data: Vec<u8> },
}

/// The value a nested call transfers: the amount the interpreter offered,
/// or zero where it offered none.
pub open spec fn call_value_of(value: Option<U256>) -> nat {
    match value {
        Some(v) => v.value(),
        None => 0nat,
    }
}

/// Maps a requested nested call onto the host's calling convention.
///
/// The gas offer is narrowed to the host's 64-bit unit and the value to
/// the host's 128-bit ether unit, in that order; an amount that does not
/// fit is fatal.  Each recognized call type selects its own primitive, and
/// the two value-bearing primitives receive the value as 16 little-endian
/// bytes.  An unrecognized call type is fatal.
pub fn plan_call(kind: CallKind, gas: U256, value: Option<U256>) -> (r: Result<
    CallPlan,
    AdapterFault,
>)
    ensures
        gas.value() > u64::MAX ==> (r matches Err(f) && f is GasOverflow),
        gas.value() <= u64::MAX && call_value_of(value)
            >= 0x1_0000_0000_0000_0000_0000_0000_0000_0000nat ==> (r matches Err(f)
            && f is ValueOverflow),
        gas.value() <= u64::MAX && call_value_of(value)
            < 0x1_0000_0000_0000_0000_0000_0000_0000_0000nat ==> match kind {
            CallKind::Call => r matches Ok(p) && p.primitive is Mutable && p.gas_limit
                == gas.value() && (p.value_le matches Some(vb) && vb@.len() == 16
                && le_bytes_value(vb@) == call_value_of(value)),
            CallKind::CallCode => r matches Ok(p) && p.primitive is Code && p.gas_limit
                == gas.value() && (p.value_le matches Some(vb) && vb@.len() == 16
                && le_bytes_value(vb@) == call_value_of(value)),
            CallKind::DelegateCall => r matches Ok(p) && p.primitive is Delegate && p.gas_limit
                == gas.value() && p.value_le is None,
            CallKind::StaticCall => r matches Ok(p) && p.primitive is Static && p.gas_limit
                == gas.value() && p.value_le is None,
            CallKind::Unrecognized => r matches Err(f) && f is UnrecognizedCallKind,
        },
{
    let gas_limit = match gas.checked_u64() {
        Some(g) => g,
        None => {
            return Err(AdapterFault::GasOverflow);
        },
    };
    let v = match value {
        Some(v) => v,
        None => U256::zero(),
    };
    if v.hi != 0 {
        return Err(AdapterFault::ValueOverflow);
    }
    let value_bytes = u128_to_le_bytes(v.lo);
    match kind {
        CallKind::Call => Ok(
            CallPlan {
                primitive: HostCallPrimitive::Mutable,
                gas_limit,
                value_le: Some(value_bytes),
            },
        ),
        CallKind::CallCode => Ok(
            CallPlan {
                primitive: HostCallPrimitive::Code,
                gas_limit,
                value_le: Some(value_bytes),
            },
        ),
        CallKind::DelegateCall => Ok(
            CallPlan { primitive: HostCallPrimitive::Delegate, gas_limit, value_le: None },
        ),
        CallKind::StaticCall => Ok(
            CallPlan { primitive: HostCallPrimitive::Static, gas_limit, value_le: None },
        ),
        CallKind::Unrecognized => Err(AdapterFault::UnrecognizedCallKind),
    }
}

/// The complete return buffer is retrieved exactly when the host reports
/// success or revert; a failed call leaves no return data to fetch.
pub fn should_fetch_return_data(status: HostCallStatus) -> (r: bool)
    ensures
        r <==> (status is Successful || status is Revert),
{
    match status {
        HostCallStatus::Successful => true,
        HostCallStatus::Revert => true,
        _ => false,
    }
}

/// The gas a nested call consumed: the drop in the host's gas meter across
/// the call primitive.  The meter only ever decreases within an
/// invocation, so a reading that rose has no legitimate cause and yields
/// nothing.
pub fn call_gas_used(gas_before: u64, gas_after: u64) -> (r: Option<u64>)
    ensures
        gas_after <= gas_before ==> (r matches Some(g) && g == gas_before - gas_after),
        gas_after > gas_before ==> r is None,
{
    if gas_after <= gas_before {
        Some(gas_before - gas_after)
    } else {
        None
    }
}

/// The outcome a host status is translated to, given the gas the call
/// consumed and the return data retrieved for it.
pub open spec fn call_outcome_of(status: HostCallStatus, gas_used: u64, data: Vec<u8>) -> Result<
    CallOutcome,
    AdapterFault,
> {
    match status {
        HostCallStatus::Successful => Ok(CallOutcome::Success { gas_used, data }),
        HostCallStatus::Failure => Ok(CallOutcome::Failed),
        HostCallStatus::Revert => Ok(CallOutcome::Reverted { gas_used, data }),
        HostCallStatus::Unknown => Err(AdapterFault::UnrecognizedHostStatus),
    }
}

/// Translates the host's report on a nested call into the outcome the
/// interpreter consumes.  A report outside the three defined ones is
/// fatal.
pub fn classify_call(status: HostCallStatus, gas_used: u64, data: Vec<u8>) -> (r: Result<
    CallOutcome,
    AdapterFault,
>)
    ensures
        r == call_outcome_of(status, gas_used, data),
{
    match status {
        HostCallStatus::Successful => Ok(CallOutcome::Success { gas_used, data }),
        HostCallStatus::Failure => Ok(CallOutcome::Failed),
        HostCallStatus::Revert => Ok(CallOutcome::Reverted { gas_used, data }),
        HostCallStatus::Unknown => Err(AdapterFault::UnrecognizedHostStatus),
    }
}

/// A nested call's outcome mirrors the host's report exactly — tag for
/// tag, with the gas delta and return data passed through unchanged — and
/// return data is carried precisely by the success and revert outcomes.
/// The translation does not depend on which call type issued the call.
pub proof fn lemma_outcome_matches_status(status: HostCallStatus, gas_used: u64, data: Vec<u8>)
    ensures
        call_outcome_of(status, gas_used, data) matches Ok(o) ==> {
            &&& o is Success <==> status is Successful
            &&& o is Failed <==> status is Failure
            &&& o is Reverted <==> status is Revert
            &&& o matches CallOutcome::Success { gas_used: g, data: d } ==> g == gas_used && d
                == data
            &&& o matches CallOutcome::Reverted { gas_used: g, data: d } ==> g == gas_used && d
                == data
        },
        call_outcome_of(status, gas_used, data) is Err <==> status is Unknown,
{
}

} // verus!
