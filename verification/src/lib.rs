//! A committee-governance engine: proposal lifecycle, weighted vote
//! recording, three-tier threshold resolution, and deposit settlement.
//!
//! The engine is a pure library: every operation receives the records it is
//! allowed to touch together with the current time, and either commits its
//! full effect or returns an error and leaves every record unchanged. Value
//! transfers, account storage and clock reads belong to the surrounding
//! platform; the library tells the platform what to move and where.
use vstd::prelude::*;

pub mod error;
pub mod instructions;
pub mod state;

verus! {

/// An identity on the surrounding ledger (an authority, a proposer, a voter,
/// a token mint), reduced to the only aspect the engine reads: an opaque
/// identifier compared for equality.
pub type AccountId = u64;

} // verus!
