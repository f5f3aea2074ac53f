use vstd::prelude::*;

use crate::context::ExecutionContext;
use crate::endian::le_bytes_value;
use crate::endian::u128_from_le_bytes;
use crate::u256::U256;

verus! {

/// The protocol revision whose gas rules the interpreter is told to apply.
/// The adapter selects one fixed revision at construction; the cost table
/// itself belongs to the interpreter, the adapter only names it.
#[derive(Clone, Copy, PartialEq, Eq, Structural, Debug)]
pub enum ScheduleVersion {
    Byzantium,
}

/// The mutable adapter state threaded through one invocation: the chosen
/// schedule, the captured execution context, and the self-destruct
/// beneficiary recorded during execution, if any.  Owned by the dispatch
/// routine for the duration of exactly one invocation.
#[derive(Debug)]
pub struct EnvironmentState {
    /// The cost-rule revision, fixed at construction.
    pub schedule: ScheduleVersion,
    /// The per-invocation facts captured at dispatch start.
    pub context: ExecutionContext,
    /// The beneficiary a self-destruct recorded, to be applied when the
    /// invocation terminates; none until then.
    pub selfdestruct_address: Option<Vec<u8>>,
}

impl EnvironmentState {
    pub open spec fn wf(self) -> bool {
        &&& self.context.wf()
        &&& match self.selfdestruct_address {
            Some(a) => a@.len() == 20,
            None => true,
        }
    }

    /// A fresh environment: the fixed schedule, the given context, and no
    /// pending self-destruct.
    pub fn new(context: ExecutionContext) -> (r: EnvironmentState)
        requires
            context.wf(),
        ensures
            r.wf(),
            r.schedule is Byzantium,
            r.context == context,
            r.selfdestruct_address is None,
    {
        EnvironmentState {
            schedule: ScheduleVersion::Byzantium,
            context,
            selfdestruct_address: None,
        }
    }

    /// Records the self-destruct beneficiary.  The host's self-destruct
    /// primitive is not invoked here: the interpreter must first finish
    /// its frame and report a terminal result, so the call is deferred to
    /// termination handling.
    pub fn record_selfdestruct(&mut self, beneficiary: Vec<u8>)
        requires
            beneficiary@.len() == 20,
            old(self).wf(),
        ensures
            final(self).wf(),
            (final(self).selfdestruct_address matches Some(a) && a == beneficiary),
            final(self).schedule == old(self).schedule,
            final(self).context == old(self).context,
    {
        self.selfdestruct_address = Some(beneficiary);
    }

    /// The execution depth reported to the interpreter: always top level,
    /// since the host bounds recursion on its own side.
    pub fn depth(&self) -> (r: usize)
        ensures
            r == 0,
    {
        0
    }

    /// Whether the interpreter runs in a static context: never, since the
    /// host enforces staticness on its own side.
    pub fn is_static(&self) -> (r: bool)
        ensures
            r == false,
    {
        false
    }
}

/// Reinterprets the host's 16-byte little-endian balance as the
/// interpreter's 256-bit word.  The upper half is zero: the host's unit is
/// only 128 bits wide, so the word is the balance zero-extended — not to
/// be confused with the 32-byte big-endian convention storage keys and
/// values travel under.
pub fn balance_word(balance_le: &Vec<u8>) -> (r: U256)
    requires
        balance_le@.len() == 16,
    ensures
        r.value() == le_bytes_value(balance_le@),
        r.hi == 0,
{
    U256::from_u128(u128_from_le_bytes(balance_le))
}

} // verus!
