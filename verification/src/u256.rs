use vstd::prelude::*;

use crate::endian::le_bytes_value;
use crate::endian::lemma_le_bytes_value_append;
use crate::endian::lemma_pow256_16;
use crate::endian::bytes_range;
use crate::endian::u128_from_le_bytes;

verus! {

/// An unsigned 256-bit integer held as two 128-bit halves.  Wide words the
/// interpreter hands around — gas counters, balances, the block difficulty,
/// the gas price — are carried in this type, while the host speaks in
/// 64-bit gas units and byte strings.
#[derive(Clone, Copy, PartialEq, Eq, Structural, Debug)]
pub struct U256 {
    /// The less significant 128 bits.
    pub lo: u128,
    /// The more significant 128 bits.
    pub hi: u128,
}

impl U256 {
    /// The number this word denotes.
    pub open spec fn value(self) -> nat {
        self.lo as nat + 0x1_0000_0000_0000_0000_0000_0000_0000_0000nat * (self.hi as nat)
    }

    pub fn zero() -> (r: U256)
        ensures
            r.value() == 0,
    {
        U256 { lo: 0, hi: 0 }
    }

    pub fn from_u64(v: u64) -> (r: U256)
        ensures
            r.value() == v as nat,
            r.hi == 0,
    {
        U256 { lo: v as u128, hi: 0 }
    }

    pub fn from_u128(v: u128) -> (r: U256)
        ensures
            r.value() == v as nat,
            r.hi == 0,
    {
        U256 { lo: v, hi: 0 }
    }

    /// Reads exactly 32 bytes as a little-endian unsigned 256-bit integer.
    pub fn from_le_bytes(b: &Vec<u8>) -> (r: U256)
        requires
            b@.len() == 32,
        ensures
            r.value() == le_bytes_value(b@),
    {
        let lo_bytes = bytes_range(b, 0, 16);
        let hi_bytes = bytes_range(b, 16, 32);
        let lo = u128_from_le_bytes(&lo_bytes);
        let hi = u128_from_le_bytes(&hi_bytes);
        proof {
            assert(b@ =~= b@.subrange(0, 16) + b@.subrange(16, 32));
            lemma_le_bytes_value_append(b@.subrange(0, 16), b@.subrange(16, 32));
            lemma_pow256_16();
        }
        U256 { lo, hi }
    }

    /// The word as a host gas amount, where it fits: the interpreter reports
    /// gas in 256-bit words, the host meters it in 64-bit units.
    pub fn checked_u64(&self) -> (r: Option<u64>)
        ensures
            match r {
                Some(v) => self.value() == v as nat,
                None => self.value() > u64::MAX,
            },
    {
        if self.hi == 0 && self.lo <= 0xffff_ffff_ffff_ffff {
            Some(self.lo as u64)
        } else {
            None
        }
    }
}

} // verus!
