//! A boundary adapter that lets an EVM bytecode interpreter execute inside
//! a host exposing the Ethereum Environment Interface: a lower-level
//! calling convention of storage, balance, call and termination
//! primitives.
//!
//! This crate holds the adapter's decisions, each with its contract:
//! converting between the interpreter's wide big-endian words and the
//! host's little-endian byte strings (`endian`, `u256`), assembling the
//! per-invocation execution context (`context`), the mutable adapter state
//! with its deferred self-destruct (`env`), mapping nested calls onto the
//! host's four call primitives and the host's reports back onto call
//! outcomes (`outcome`), mapping the interpreter's terminal result onto
//! exactly one termination primitive with its gas charge (`dispatch`), and
//! the write-then-read model the host's store is relied on for (`store`).
//! The interpreter itself and the host primitives are outside
//! collaborators, driven by the program around this library.

pub mod context;
pub mod dispatch;
pub mod endian;
pub mod env;
pub mod outcome;
pub mod store;
pub mod u256;
