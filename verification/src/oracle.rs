//! The cross-component boundaries, as capabilities.
//!
//! Components never share state: a voting contract that needs to know whether
//! a participant is authorized, or whether it is a recognized validator, asks
//! another component through a synchronous read-only call. These traits are
//! those boundaries; the caller injects the component (or a handle to it)
//! when it makes the call.

use vstd::prelude::*;

use crate::{AccountId, BlockNumber};

verus! {

/// The authorization boundary: answers whether a participant currently holds
/// an active authorization. Consumed by the subscription-gated voting
/// contract; implemented by the enrollment registry.
pub trait AuthorizationOracle {
    /// The oracle's answer, as a mathematical predicate over its state.
    spec fn active_spec(&self, account: AccountId, now: BlockNumber) -> bool;

    /// Synchronous read-only query: is `account` active at tick `now`?
    fn is_active(&self, account: AccountId, now: BlockNumber) -> (r: bool)
        ensures
            r == self.active_spec(account, now),
    ;
}

/// The validator-status boundary: answers whether a participant is a
/// recognized validator. Consumed by the weighted voting contract to select
/// a vote's weight (never to gate authorization); implemented by the staking
/// ledger.
pub trait ValidatorOracle {
    /// The oracle's answer, as a mathematical predicate over its state.
    spec fn validator_spec(&self, account: AccountId) -> bool;

    /// Synchronous read-only query: is `account` a recognized validator?
    fn is_validator(&self, account: AccountId) -> (r: bool)
        ensures
            r == self.validator_spec(account),
    ;
}

} // verus!
