//! The subscription-gated voting contract.
//!
//! The admin opens a ballot for a fixed duration; participants then vote
//! for or against, each vote weighing 1. Before accepting a ballot the
//! contract synchronously asks the authorization registry whether the
//! caller is active — an unauthorized caller is rejected before the
//! duplicate check, so a double-voting unauthorized caller receives
//! `NotAuthorized`, not `AlreadyVoted`. At or after the deadline the admin
//! closes the ballot; it resolves and stays `Done` until a fresh
//! `start_voting` reopens it.

use vstd::prelude::*;

use crate::ballot::{
    cast_transition, end_transition, start_transition, Ballot, BallotView, VotingError,
    VotingResult,
};
use crate::oracle::AuthorizationOracle;
use crate::{AccountId, BlockNumber};

verus! {

/// The voting contract: a title, the admin who may open and close ballots,
/// and the ballot state machine.
pub struct Voting {
    title: String,
    admin: AccountId,
    ballot: Ballot,
}

impl Voting {
    /// The admin of the voting.
    pub closed spec fn spec_admin(&self) -> AccountId {
        self.admin
    }

    /// The title of the voting.
    pub closed spec fn spec_title(&self) -> Seq<char> {
        self.title@
    }

    /// The ballot's abstract state.
    pub closed spec fn spec_ballot(&self) -> BallotView {
        self.ballot@
    }

    /// Creates a new voting contract. The creating caller becomes the
    /// admin; the ballot starts closed.
    pub fn new(title: String, caller: AccountId) -> (v: Voting)
        ensures
            v.spec_admin() == caller,
            v.spec_title() == title@,
            v.spec_ballot() == BallotView::Ready,
    {
        Voting { title, admin: caller, ballot: Ballot::new() }
    }

    /// The admin's identity, for the runtime glue around the contract.
    pub fn admin(&self) -> (r: AccountId)
        ensures
            r == self.spec_admin(),
    {
        self.admin
    }

    /// The title, for notifications.
    pub fn title(&self) -> (r: &String)
        ensures
            r@ == self.spec_title(),
    {
        &self.title
    }

    /// Starts the voting process: admin only. Opens a fresh ballot whose
    /// deadline lies `duration` blocks from `now` (saturating), discarding
    /// any ballot in flight — even an active one.
    pub fn start_voting(&mut self, caller: AccountId, now: BlockNumber, duration: BlockNumber) -> (r:
        Result<(), VotingError>)
        ensures
            final(self).spec_admin() == old(self).spec_admin(),
            final(self).spec_title() == old(self).spec_title(),
            caller != old(self).spec_admin() ==> r == Err::<(), VotingError>(VotingError::NotAdmin)
                && final(self).spec_ballot() == old(self).spec_ballot(),
            caller == old(self).spec_admin() ==> r == Ok::<(), VotingError>(())
                && final(self).spec_ballot() == start_transition(now, duration),
    {
        if caller != self.admin {
            return Err(VotingError::NotAdmin);
        }
        self.ballot.start(now, duration);
        Ok(())
    }

    /// Votes for the proposal, after the synchronous authorization check
    /// against `registry`.
    pub fn vote_for<O: AuthorizationOracle>(
        &mut self,
        registry: &O,
        caller: AccountId,
        now: BlockNumber,
    ) -> (r: Result<(), VotingError>)
        ensures
            final(self).spec_admin() == old(self).spec_admin(),
            final(self).spec_title() == old(self).spec_title(),
            final(self).spec_ballot() == cast_transition(
                old(self).spec_ballot(),
                caller,
                now,
                registry.active_spec(caller, now),
                1,
                true,
            ).0,
            r == cast_transition(
                old(self).spec_ballot(),
                caller,
                now,
                registry.active_spec(caller, now),
                1,
                true,
            ).1,
    {
        self.vote(registry, caller, now, true)
    }

    /// Votes against the proposal, after the synchronous authorization
    /// check against `registry`.
    pub fn vote_against<O: AuthorizationOracle>(
        &mut self,
        registry: &O,
        caller: AccountId,
        now: BlockNumber,
    ) -> (r: Result<(), VotingError>)
        ensures
            final(self).spec_admin() == old(self).spec_admin(),
            final(self).spec_title() == old(self).spec_title(),
            final(self).spec_ballot() == cast_transition(
                old(self).spec_ballot(),
                caller,
                now,
                registry.active_spec(caller, now),
                1,
                false,
            ).0,
            r == cast_transition(
                old(self).spec_ballot(),
                caller,
                now,
                registry.active_spec(caller, now),
                1,
                false,
            ).1,
    {
        self.vote(registry, caller, now, false)
    }

    /// Ends the voting process and returns the result: admin only, and only
    /// once the active ballot's deadline has been reached. The ballot then
    /// stays `Done` until a fresh `start_voting`.
    pub fn end_voting(&mut self, caller: AccountId, now: BlockNumber) -> (r: Result<
        VotingResult,
        VotingError,
    >)
        ensures
            final(self).spec_admin() == old(self).spec_admin(),
            final(self).spec_title() == old(self).spec_title(),
            caller != old(self).spec_admin() ==> r == Err::<VotingResult, VotingError>(
                VotingError::NotAdmin,
            ) && final(self).spec_ballot() == old(self).spec_ballot(),
            caller == old(self).spec_admin() ==> final(self).spec_ballot() == end_transition(
                old(self).spec_ballot(),
                now,
            ).0 && r == end_transition(old(self).spec_ballot(), now).1,
    {
        if caller != self.admin {
            return Err(VotingError::NotAdmin);
        }
        self.ballot.close(now)
    }

    /// The shared vote operation: authorization check, then the ballot's
    /// cast with weight 1.
    fn vote<O: AuthorizationOracle>(
        &mut self,
        registry: &O,
        caller: AccountId,
        now: BlockNumber,
        approve: bool,
    ) -> (r: Result<(), VotingError>)
        ensures
            final(self).spec_admin() == old(self).spec_admin(),
            final(self).spec_title() == old(self).spec_title(),
            final(self).spec_ballot() == cast_transition(
                old(self).spec_ballot(),
                caller,
                now,
                registry.active_spec(caller, now),
                1,
                approve,
            ).0,
            r == cast_transition(
                old(self).spec_ballot(),
                caller,
                now,
                registry.active_spec(caller, now),
                1,
                approve,
            ).1,
    {
        let authorized = registry.is_active(caller, now);
        self.ballot.cast(caller, now, authorized, 1, approve)
    }
}

} // verus!
