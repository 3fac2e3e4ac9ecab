//! A proof-of-work chain: a ledger that validates and commits blocks,
//! retargets the difficulty and settles transfers, and the mining worker
//! that searches for the nonces.
//!
//! The library holds the rules.  Time, the caller's identity, calls between
//! canisters and the encoding of records are the host's: it hands the
//! library plain values and acts on what the library returns.

use vstd::prelude::*;

pub mod block;
pub mod collections;
pub mod hash;
pub mod laws;
pub mod ledger;
pub mod memory;
pub mod miner;
pub mod principal;
pub mod spawner;
pub mod stable;
pub mod state;
pub mod upstream;
