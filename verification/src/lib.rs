//! A small on-chain governance toolkit: a time-bounded subscription registry
//! (`enroll`), a pooled-deposit staking aggregator (`common_staking`), and a
//! deadline-driven voting state machine (`voting`, `weighted_voting`), together
//! with a model of the staking ledger they talk to (`fake_staking`).
//!
//! Components own their state exclusively and interact only through
//! synchronous calls; the cross-component boundaries (authorization and
//! validator status) are capability traits injected by the caller.

pub mod ballot;
pub mod common_staking;
pub mod enroll;
pub mod fake_staking;
pub mod oracle;
pub mod runtime_call;
pub mod voting;
pub mod weighted_voting;

use vstd::prelude::*;

verus! {

/// The identity distinguishing callers; used as a map key throughout.
pub type AccountId = u128;

/// The unit of transferred value and of stakes.
pub type Balance = u128;

/// The discrete, monotonically increasing unit of logical time used for
/// deadlines and subscription expiries.
pub type BlockNumber = u32;

/// Saturating addition on 32-bit counters, as used for deadlines, expiries
/// and tallies: the sum, clamped to `u32::MAX`.
pub open spec fn sat_add32(a: u32, b: u32) -> u32 {
    if a + b > u32::MAX {
        u32::MAX
    } else {
        (a + b) as u32
    }
}

} // verus!
