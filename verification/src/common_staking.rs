//! The pooled-deposit staking aggregator.
//!
//! Deposits accumulate on the pool's own account until the accumulated
//! balance reaches `THRESHOLD`; the pool then issues a single initial
//! `Stake` instruction for the full accumulated amount, and from then on
//! forwards every further deposit as a `StakeMore` of exactly that deposit.
//! The accumulated balance is the ledger-held balance of the pool's account
//! (including the current deposit) and is read, not stored; only the
//! `already_staking` flag is the pool's own state.

use vstd::prelude::*;

use crate::runtime_call::{FakeStakingCall, RuntimeCall};
use crate::Balance;

verus! {

/// The minimum accumulated balance before the pool forwards a stake
/// instruction.
pub const THRESHOLD: u128 = 100;

/// The pool's decision on one deposit: the new value of the
/// `already_staking` flag and the instruction to issue, if any.
pub open spec fn stake_decision(
    already_staking: bool,
    transferred: Balance,
    accumulated: Balance,
) -> (bool, Option<RuntimeCall>) {
    if accumulated >= THRESHOLD && already_staking {
        (true, Some(RuntimeCall::FakeStaking(FakeStakingCall::StakeMore { more: transferred })))
    } else if accumulated >= THRESHOLD {
        (true, Some(RuntimeCall::FakeStaking(FakeStakingCall::Stake { stake: accumulated })))
    } else {
        (already_staking, None)
    }
}

/// The staking pool contract. `already_staking` is true iff an initial
/// stake instruction has been issued, and persists for the lifetime of the
/// contract.
pub struct CommonStaking {
    already_staking: bool,
}

impl CommonStaking {
    /// Whether the pool has issued its initial stake instruction.
    pub closed spec fn spec_already_staking(&self) -> bool {
        self.already_staking
    }

    /// A fresh pool that has not staked yet.
    pub fn new() -> (c: CommonStaking)
        ensures
            !c.spec_already_staking(),
    {
        CommonStaking { already_staking: false }
    }

    /// Handles one deposit. `transferred` is this call's deposit and
    /// `accumulated` the pool's cumulative balance including it, both read
    /// from the ledger by the caller. Returns the instruction to forward to
    /// the staking ledger, if the decision table calls for one.
    pub fn stake(&mut self, transferred: Balance, accumulated: Balance) -> (r: Option<
        RuntimeCall,
    >)
        ensures
            final(self).spec_already_staking() == stake_decision(
                old(self).spec_already_staking(),
                transferred,
                accumulated,
            ).0,
            r == stake_decision(old(self).spec_already_staking(), transferred, accumulated).1,
    {
        if accumulated >= THRESHOLD && self.already_staking {
            Some(RuntimeCall::FakeStaking(FakeStakingCall::StakeMore { more: transferred }))
        } else if accumulated >= THRESHOLD {
            self.already_staking = true;
            Some(RuntimeCall::FakeStaking(FakeStakingCall::Stake { stake: accumulated }))
        } else {
            None
        }
    }
}

impl Default for CommonStaking {
    /// Same as `new`: a pool that has not staked yet.
    fn default() -> (c: CommonStaking)
        ensures
            !c.spec_already_staking(),
    {
        CommonStaking::new()
    }
}

/// Law: two deposits that individually stay below the threshold but whose
/// sum meets it: the first call issues nothing, and only the second issues
/// an instruction — an initial `Stake` sized at the full accumulated
/// amount, not just the second deposit.
pub proof fn lemma_threshold_crossing(first: Balance, second: Balance)
    requires
        first < THRESHOLD,
        second < THRESHOLD,
        first + second >= THRESHOLD,
        first + second <= u128::MAX,
    ensures
        stake_decision(false, first, first) == (false, None::<RuntimeCall>),
        stake_decision(false, second, (first + second) as Balance) == (
            true,
            Some(
                RuntimeCall::FakeStaking(
                    FakeStakingCall::Stake { stake: (first + second) as Balance },
                ),
            ),
        ),
{
}

/// Law: once the pool has staked, every further deposit that finds the
/// accumulated balance at or above the threshold is forwarded as a
/// `StakeMore` of exactly the transferred amount; an initial `Stake` is
/// never issued again, and the flag never resets.
pub proof fn lemma_stake_more_after_staking(transferred: Balance, accumulated: Balance)
    requires
        accumulated >= THRESHOLD,
    ensures
        stake_decision(true, transferred, accumulated) == (
            true,
            Some(RuntimeCall::FakeStaking(FakeStakingCall::StakeMore { more: transferred })),
        ),
{
}

/// Law: the `already_staking` flag is monotone and no later call ever
/// issues an initial `Stake` once it is set, whatever the amounts.
pub proof fn lemma_never_restakes(transferred: Balance, accumulated: Balance)
    ensures
        stake_decision(true, transferred, accumulated).0,
        !(stake_decision(true, transferred, accumulated).1 matches Some(
            RuntimeCall::FakeStaking(FakeStakingCall::Stake { .. }),
        )),
{
}

} // verus!
