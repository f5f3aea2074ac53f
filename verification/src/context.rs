use vstd::prelude::*;

use crate::endian::le_bytes_value;
use crate::u256::U256;

verus! {

/// The per-invocation facts the interpreter runs under.  Captured once
/// from host queries when dispatch starts and never changed afterwards.
#[derive(Debug)]
pub struct ExecutionContext {
    /// The code being executed.
    pub code: Vec<u8>,
    /// The input data of the call.
    pub calldata: Vec<u8>,
    /// The executing contract's 20-byte address.
    pub address: Vec<u8>,
    /// The direct caller's 20-byte address.
    pub sender: Vec<u8>,
    /// The 20-byte address the transaction originated from.
    pub origin: Vec<u8>,
    /// The transaction's gas price.
    pub gas_price: U256,
    /// The gas available when the invocation began.  The host exposes no
    /// gas limit of its own, so this reading stands in for it.
    pub start_gas: u64,
    /// The block's 20-byte beneficiary address.
    pub coinbase: Vec<u8>,
    /// The block's difficulty.
    pub difficulty: U256,
    /// The block's number.
    pub number: u64,
    /// The block's timestamp.
    pub timestamp: u64,
    /// The block's gas limit.
    pub block_gas_limit: u64,
}

impl ExecutionContext {
    /// Every address field is 20 bytes wide.
    pub open spec fn wf(self) -> bool {
        &&& self.address@.len() == 20
        &&& self.sender@.len() == 20
        &&& self.origin@.len() == 20
        &&& self.coinbase@.len() == 20
    }
}

/// Assembles the execution context from the host's answers, converting the
/// host's little-endian byte strings into words: the 16-byte gas price and
/// the 32-byte difficulty.  Everything else is taken as the host gave it.
/// The executing contract is its own code's address, so that address
/// serves for both.
pub fn build_context(
    code: Vec<u8>,
    calldata: Vec<u8>,
    address: Vec<u8>,
    sender: Vec<u8>,
    origin: Vec<u8>,
    gas_price_le: &Vec<u8>,
    start_gas: u64,
    coinbase: Vec<u8>,
    difficulty_le: &Vec<u8>,
    number: u64,
    timestamp: u64,
    block_gas_limit: u64,
) -> (r: ExecutionContext)
    requires
        address@.len() == 20,
        sender@.len() == 20,
        origin@.len() == 20,
        coinbase@.len() == 20,
        gas_price_le@.len() == 16,
        difficulty_le@.len() == 32,
    ensures
        r.wf(),
        r.code == code,
        r.calldata == calldata,
        r.address == address,
        r.sender == sender,
        r.origin == origin,
        r.gas_price.value() == le_bytes_value(gas_price_le@),
        r.start_gas == start_gas,
        r.coinbase == coinbase,
        r.difficulty.value() == le_bytes_value(difficulty_le@),
        r.number == number,
        r.timestamp == timestamp,
        r.block_gas_limit == block_gas_limit,
{
    let gas_price = {
        let lo = crate::endian::u128_from_le_bytes(gas_price_le);
        U256::from_u128(lo)
    };
    let difficulty = U256::from_le_bytes(difficulty_le);
    ExecutionContext {
        code,
        calldata,
        address,
        sender,
        origin,
        gas_price,
        start_gas,
        coinbase,
        difficulty,
        number,
        timestamp,
        block_gas_limit,
    }
}

} // verus!
