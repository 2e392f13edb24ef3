//! The staking ledger: a key→amount store with a validator set.
//!
//! This is the external collaborator the pool forwards its instructions to,
//! modeled in full: `stake` opens a staker's entry (guarded by the minimum
//! stake), `stake_more` tops it up, and the validator set answers the
//! weighted voting contract's status queries.

use std::collections::{HashMap, HashSet};

use vstd::prelude::*;

use crate::common_staking::THRESHOLD;
use crate::oracle::ValidatorOracle;
use crate::runtime_call::{FakeStakingCall, RuntimeCall};
use crate::{AccountId, Balance};

verus! {

broadcast use vstd::std_specs::hash::group_hash_axioms;

/// Errors of the ledger's own state transitions, surfaced to the pool's
/// caller as an unrecovered downstream failure.
#[derive(Copy, Clone, Debug, PartialEq, Eq, Structural)]
pub enum Error {
    /// The account is already a staker. Cannot call `stake` twice.
    AlreadyStaking,
    /// The stake is not enough to become a staker.
    NotEnoughStake,
    /// The account is not a staker. Cannot call `stake_more` without calling
    /// `stake` first.
    NotStaker,
}

/// The stakers' entries after an initial `stake`, with its outcome: the
/// amount must reach the minimum and the account must not already stake.
pub open spec fn stake_outcome(
    stakes: Map<AccountId, Balance>,
    origin: AccountId,
    stake: Balance,
) -> (Map<AccountId, Balance>, Result<(), Error>) {
    if stake < THRESHOLD {
        (stakes, Err(Error::NotEnoughStake))
    } else if stakes.contains_key(origin) {
        (stakes, Err(Error::AlreadyStaking))
    } else {
        (stakes.insert(origin, stake), Ok(()))
    }
}

/// The stakers' entries after a `stake_more`, with its outcome: the account
/// must already stake; its entry grows by `more`, saturating.
pub open spec fn stake_more_outcome(
    stakes: Map<AccountId, Balance>,
    origin: AccountId,
    more: Balance,
) -> (Map<AccountId, Balance>, Result<(), Error>) {
    if stakes.contains_key(origin) {
        let grown = if stakes[origin] + more > u128::MAX {
            u128::MAX
        } else {
            (stakes[origin] + more) as Balance
        };
        (stakes.insert(origin, grown), Ok(()))
    } else {
        (stakes, Err(Error::NotStaker))
    }
}

/// The staking ledger: the set of validators and the stakers' amounts.
pub struct FakeStaking {
    validators: HashSet<AccountId>,
    stakers: HashMap<AccountId, Balance>,
}

impl FakeStaking {
    /// The recognized validators.
    pub closed spec fn spec_validators(&self) -> Set<AccountId> {
        self.validators@
    }

    /// The stakers' entries.
    pub closed spec fn spec_stakes(&self) -> Map<AccountId, Balance> {
        self.stakers@
    }

    /// A fresh ledger with no validators and no stakers.
    pub fn new() -> (l: FakeStaking)
        ensures
            l.spec_validators() == Set::<AccountId>::empty(),
            l.spec_stakes() == Map::<AccountId, Balance>::empty(),
    {
        FakeStaking { validators: HashSet::new(), stakers: HashMap::new() }
    }

    /// Adds the signing account to the validator set.
    pub fn become_validator(&mut self, origin: AccountId)
        ensures
            final(self).spec_validators() == old(self).spec_validators().insert(origin),
            final(self).spec_stakes() == old(self).spec_stakes(),
    {
        self.validators.insert(origin);
    }

    /// Opens the signing account's stake. The amount must be at least the
    /// minimum stake, and the account must not already be a staker.
    pub fn stake(&mut self, origin: AccountId, stake: Balance) -> (r: Result<(), Error>)
        ensures
            final(self).spec_stakes() == stake_outcome(old(self).spec_stakes(), origin, stake).0,
            r == stake_outcome(old(self).spec_stakes(), origin, stake).1,
            final(self).spec_validators() == old(self).spec_validators(),
    {
        if stake < THRESHOLD {
            return Err(Error::NotEnoughStake);
        }
        if self.stakers.contains_key(&origin) {
            return Err(Error::AlreadyStaking);
        }
        self.stakers.insert(origin, stake);
        Ok(())
    }

    /// Grows the signing account's existing stake by `more`, saturating.
    pub fn stake_more(&mut self, origin: AccountId, more: Balance) -> (r: Result<(), Error>)
        ensures
            final(self).spec_stakes() == stake_more_outcome(
                old(self).spec_stakes(),
                origin,
                more,
            ).0,
            r == stake_more_outcome(old(self).spec_stakes(), origin, more).1,
            final(self).spec_validators() == old(self).spec_validators(),
    {
        let current: Balance = match self.stakers.get(&origin) {
            Some(amount) => *amount,
            None => {
                return Err(Error::NotStaker);
            },
        };
        self.stakers.insert(origin, current.saturating_add(more));
        Ok(())
    }

    /// Check the stake of an account. Returns `None` if the account is not a
    /// staker.
    pub fn stake_of(&self, account: AccountId) -> (r: Option<Balance>)
        ensures
            r == if self.spec_stakes().contains_key(account) {
                Some(self.spec_stakes()[account])
            } else {
                None::<Balance>
            },
    {
        match self.stakers.get(&account) {
            Some(amount) => Some(*amount),
            None => None,
        }
    }

    /// Executes a runtime call addressed to this ledger on behalf of
    /// `origin` — the dispatch step the runtime performs when the pool's
    /// instruction arrives.
    pub fn dispatch(&mut self, origin: AccountId, call: &RuntimeCall) -> (r: Result<(), Error>)
        ensures
            final(self).spec_validators() == old(self).spec_validators(),
            match *call {
                RuntimeCall::FakeStaking(FakeStakingCall::Stake { stake }) => {
                    &&& final(self).spec_stakes() == stake_outcome(
                        old(self).spec_stakes(),
                        origin,
                        stake,
                    ).0
                    &&& r == stake_outcome(old(self).spec_stakes(), origin, stake).1
                },
                RuntimeCall::FakeStaking(FakeStakingCall::StakeMore { more }) => {
                    &&& final(self).spec_stakes() == stake_more_outcome(
                        old(self).spec_stakes(),
                        origin,
                        more,
                    ).0
                    &&& r == stake_more_outcome(old(self).spec_stakes(), origin, more).1
                },
            },
    {
        match call {
            RuntimeCall::FakeStaking(FakeStakingCall::Stake { stake }) => {
                self.stake(origin, *stake)
            },
            RuntimeCall::FakeStaking(FakeStakingCall::StakeMore { more }) => {
                self.stake_more(origin, *more)
            },
        }
    }
}

impl ValidatorOracle for FakeStaking {
    open spec fn validator_spec(&self, account: AccountId) -> bool {
        self.spec_validators().contains(account)
    }

    /// Check if an account is a validator.
    fn is_validator(&self, account: AccountId) -> bool {
        self.validators.contains(&account)
    }
}

} // verus!
