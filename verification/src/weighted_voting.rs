//! The weighted voting contract.
//!
//! Votes are open to everyone, but a recognized validator's vote counts
//! `VALIDATOR_VOTE` while a standard vote counts `STANDARD_VOTE`. The
//! validator status is obtained per vote through a synchronous query to the
//! validator oracle — it selects a weight, it never gates authorization.

use vstd::prelude::*;

use crate::ballot::{
    cast_transition, end_transition, start_transition, tally_result, Ballot, BallotView,
    VotingError, VotingResult,
};
use crate::oracle::ValidatorOracle;
use crate::{AccountId, BlockNumber};

verus! {

/// The strength of a standard vote.
pub const STANDARD_VOTE: u32 = 1;

/// The strength of a validator vote.
pub const VALIDATOR_VOTE: u32 = 5;

/// The weight a vote carries, from the oracle's answer.
pub open spec fn vote_weight(is_validator: bool) -> u32 {
    if is_validator {
        VALIDATOR_VOTE
    } else {
        STANDARD_VOTE
    }
}

/// Error codes that can be returned by the validator oracle's host-side
/// extension: status code 0 means success, any other code is an
/// oracle-level failure the caller does not attempt to recover from.
#[derive(Copy, Clone, Debug, PartialEq, Eq, Structural)]
pub struct StakingExtensionErrorCode(pub u32);

impl StakingExtensionErrorCode {
    /// Maps a host status code to the oracle call's outcome.
    pub fn from_status_code(status_code: u32) -> (r: Result<(), StakingExtensionErrorCode>)
        ensures
            status_code == 0 ==> r == Ok::<(), StakingExtensionErrorCode>(()),
            status_code != 0 ==> r == Err::<(), StakingExtensionErrorCode>(
                StakingExtensionErrorCode(status_code),
            ),
    {
        match status_code {
            0 => Ok(()),
            _ => Err(StakingExtensionErrorCode(status_code)),
        }
    }
}

/// The weighted voting contract: a title, the admin who may open and close
/// ballots, and the ballot state machine.
pub struct WeightedVoting {
    title: String,
    admin: AccountId,
    ballot: Ballot,
}

impl WeightedVoting {
    /// The admin of the voting.
    pub closed spec fn spec_admin(&self) -> AccountId {
        self.admin
    }

    /// The title of the voting.
    pub closed spec fn spec_title(&self) -> Seq<char> {
        self.title@
    }

    /// The ballot's abstract state.
    pub closed spec fn spec_ballot(&self) -> BallotView {
        self.ballot@
    }

    /// Creates a new weighted voting contract. The creating caller becomes
    /// the admin; the ballot starts closed.
    pub fn new(title: String, caller: AccountId) -> (v: WeightedVoting)
        ensures
            v.spec_admin() == caller,
            v.spec_title() == title@,
            v.spec_ballot() == BallotView::Ready,
    {
        WeightedVoting { title, admin: caller, ballot: Ballot::new() }
    }

    /// Starts the voting process: admin only. Opens a fresh ballot whose
    /// deadline lies `duration` blocks from `now` (saturating), discarding
    /// any ballot in flight.
    pub fn start_voting(&mut self, caller: AccountId, now: BlockNumber, duration: BlockNumber) -> (r:
        Result<(), VotingError>)
        ensures
            final(self).spec_admin() == old(self).spec_admin(),
            final(self).spec_title() == old(self).spec_title(),
            caller != old(self).spec_admin() ==> r == Err::<(), VotingError>(VotingError::NotAdmin)
                && final(self).spec_ballot() == old(self).spec_ballot(),
            caller == old(self).spec_admin() ==> r == Ok::<(), VotingError>(())
                && final(self).spec_ballot() == start_transition(now, duration),
    {
        if caller != self.admin {
            return Err(VotingError::NotAdmin);
        }
        self.ballot.start(now, duration);
        Ok(())
    }

    /// Votes for the proposal with the weight the validator oracle selects
    /// for the caller.
    pub fn vote_for<V: ValidatorOracle>(
        &mut self,
        oracle: &V,
        caller: AccountId,
        now: BlockNumber,
    ) -> (r: Result<(), VotingError>)
        ensures
            final(self).spec_admin() == old(self).spec_admin(),
            final(self).spec_title() == old(self).spec_title(),
            final(self).spec_ballot() == cast_transition(
                old(self).spec_ballot(),
                caller,
                now,
                true,
                vote_weight(oracle.validator_spec(caller)),
                true,
            ).0,
            r == cast_transition(
                old(self).spec_ballot(),
                caller,
                now,
                true,
                vote_weight(oracle.validator_spec(caller)),
                true,
            ).1,
    {
        self.vote(oracle, caller, now, true)
    }

    /// Votes against the proposal with the weight the validator oracle
    /// selects for the caller.
    pub fn vote_against<V: ValidatorOracle>(
        &mut self,
        oracle: &V,
        caller: AccountId,
        now: BlockNumber,
    ) -> (r: Result<(), VotingError>)
        ensures
            final(self).spec_admin() == old(self).spec_admin(),
            final(self).spec_title() == old(self).spec_title(),
            final(self).spec_ballot() == cast_transition(
                old(self).spec_ballot(),
                caller,
                now,
                true,
                vote_weight(oracle.validator_spec(caller)),
                false,
            ).0,
            r == cast_transition(
                old(self).spec_ballot(),
                caller,
                now,
                true,
                vote_weight(oracle.validator_spec(caller)),
                false,
            ).1,
    {
        self.vote(oracle, caller, now, false)
    }

    /// Ends the voting process and returns the result: admin only, and only
    /// once the active ballot's deadline has been reached.
    pub fn end_voting(&mut self, caller: AccountId, now: BlockNumber) -> (r: Result<
        VotingResult,
        VotingError,
    >)
        ensures
            final(self).spec_admin() == old(self).spec_admin(),
            final(self).spec_title() == old(self).spec_title(),
            caller != old(self).spec_admin() ==> r == Err::<VotingResult, VotingError>(
                VotingError::NotAdmin,
            ) && final(self).spec_ballot() == old(self).spec_ballot(),
            caller == old(self).spec_admin() ==> final(self).spec_ballot() == end_transition(
                old(self).spec_ballot(),
                now,
            ).0 && r == end_transition(old(self).spec_ballot(), now).1,
    {
        if caller != self.admin {
            return Err(VotingError::NotAdmin);
        }
        self.ballot.close(now)
    }

    /// The shared vote operation: weight selection by the oracle, then the
    /// ballot's cast. No authorization gate in this variant.
    fn vote<V: ValidatorOracle>(
        &mut self,
        oracle: &V,
        caller: AccountId,
        now: BlockNumber,
        approve: bool,
    ) -> (r: Result<(), VotingError>)
        ensures
            final(self).spec_admin() == old(self).spec_admin(),
            final(self).spec_title() == old(self).spec_title(),
            final(self).spec_ballot() == cast_transition(
                old(self).spec_ballot(),
                caller,
                now,
                true,
                vote_weight(oracle.validator_spec(caller)),
                approve,
            ).0,
            r == cast_transition(
                old(self).spec_ballot(),
                caller,
                now,
                true,
                vote_weight(oracle.validator_spec(caller)),
                approve,
            ).1,
    {
        let weight: u32 = if oracle.is_validator(caller) {
            VALIDATOR_VOTE
        } else {
            STANDARD_VOTE
        };
        self.ballot.cast(caller, now, true, weight, approve)
    }
}

/// Law: a recognized validator's single vote outweighs the opposing
/// standard votes whenever `VALIDATOR_VOTE` exceeds `STANDARD_VOTE` times
/// their count — the tally of one validator vote for against `opposers`
/// standard votes against resolves to `For`.
pub proof fn lemma_validator_outweighs(opposers: u32)
    requires
        opposers * STANDARD_VOTE < VALIDATOR_VOTE,
    ensures
        tally_result(VALIDATOR_VOTE, (opposers * STANDARD_VOTE) as u32) == VotingResult::For,
{
}

/// The ballot after a sequence of standard votes against, cast in order at
/// tick `now` by authorized callers.
pub open spec fn after_standard_against_votes(
    b: BallotView,
    opposers: Seq<AccountId>,
    now: BlockNumber,
) -> BallotView
    decreases opposers.len(),
{
    if opposers.len() == 0 {
        b
    } else {
        cast_transition(
            after_standard_against_votes(b, opposers.drop_last(), now),
            opposers.last(),
            now,
            true,
            STANDARD_VOTE,
            false,
        ).0
    }
}

/// Distinct standard voters who have not voted yet each add exactly
/// `STANDARD_VOTE` to the against-tally and themselves to the voter set;
/// nothing else of the ballot moves.
pub proof fn lemma_standard_against_votes_tally(
    b: BallotView,
    opposers: Seq<AccountId>,
    now: BlockNumber,
)
    requires
        b is Active,
        now < b->Active_deadline,
        opposers.no_duplicates(),
        forall|i: int| 0 <= i < opposers.len() ==> !b->Active_voters.contains(opposers[i]),
        b->Active_votes_against + opposers.len() * STANDARD_VOTE <= u32::MAX,
    ensures
        after_standard_against_votes(b, opposers, now) == (BallotView::Active {
            voters: b->Active_voters.union(opposers.to_set()),
            votes_for: b->Active_votes_for,
            votes_against: (b->Active_votes_against + opposers.len() * STANDARD_VOTE) as u32,
            deadline: b->Active_deadline,
        }),
    decreases opposers.len(),
{
    if opposers.len() == 0 {
        assert(b->Active_voters.union(opposers.to_set()) =~= b->Active_voters);
        assert(after_standard_against_votes(b, opposers, now) =~= (BallotView::Active {
            voters: b->Active_voters.union(opposers.to_set()),
            votes_for: b->Active_votes_for,
            votes_against: (b->Active_votes_against + opposers.len() * STANDARD_VOTE) as u32,
            deadline: b->Active_deadline,
        }));
    } else {
        let prefix = opposers.drop_last();
        let last = opposers.last();
        assert(prefix.no_duplicates()) by {
            assert(forall|i: int, j: int|
                0 <= i < prefix.len() && 0 <= j < prefix.len() && i != j ==> prefix[i]
                    != prefix[j]);
        }
        lemma_standard_against_votes_tally(b, prefix, now);
        let before_last = after_standard_against_votes(b, prefix, now);
        assert(!prefix.contains(last)) by {
            assert(forall|i: int|
                0 <= i < prefix.len() ==> #[trigger] opposers[i] != opposers[opposers.len() - 1]);
        }
        assert(!prefix.to_set().contains(last));
        assert(!b->Active_voters.contains(last)) by {
            assert(opposers[opposers.len() - 1] == last);
        }
        assert(!before_last->Active_voters.contains(last));
        let stepped = cast_transition(before_last, last, now, true, STANDARD_VOTE, false).0;
        assert(opposers =~= prefix.push(last));
        prefix.lemma_push_to_set_commute(last);
        assert(opposers.to_set() =~= prefix.to_set().insert(last));
        assert(stepped->Active_voters =~= b->Active_voters.union(opposers.to_set()));
        assert(stepped->Active_votes_against == b->Active_votes_against + opposers.len()
            * STANDARD_VOTE);
        assert(stepped =~= (BallotView::Active {
            voters: b->Active_voters.union(opposers.to_set()),
            votes_for: b->Active_votes_for,
            votes_against: (b->Active_votes_against + opposers.len() * STANDARD_VOTE) as u32,
            deadline: b->Active_deadline,
        }));
    }
}

/// Law: on a fresh ballot, one recognized validator voting for, followed by
/// any number of distinct standard voters voting against, resolves to `For`
/// at the deadline whenever `VALIDATOR_VOTE` exceeds `STANDARD_VOTE` times
/// the count of opposing voters.
pub proof fn lemma_validator_single_vote_wins(
    now: BlockNumber,
    duration: BlockNumber,
    validator: AccountId,
    opposers: Seq<AccountId>,
    close_at: BlockNumber,
)
    requires
        now < crate::sat_add32(now, duration),
        opposers.no_duplicates(),
        !opposers.contains(validator),
        opposers.len() * STANDARD_VOTE < VALIDATOR_VOTE,
        close_at >= crate::sat_add32(now, duration),
    ensures
        ({
            let opened = start_transition(now, duration);
            let with_validator = cast_transition(
                opened,
                validator,
                now,
                true,
                VALIDATOR_VOTE,
                true,
            ).0;
            let contested = after_standard_against_votes(with_validator, opposers, now);
            end_transition(contested, close_at).1 == Ok::<VotingResult, VotingError>(
                VotingResult::For,
            )
        }),
{
    let opened = start_transition(now, duration);
    let with_validator = cast_transition(opened, validator, now, true, VALIDATOR_VOTE, true).0;
    assert(with_validator->Active_voters =~= Set::empty().insert(validator));
    assert(forall|i: int|
        0 <= i < opposers.len() ==> !with_validator->Active_voters.contains(opposers[i]));
    lemma_standard_against_votes_tally(with_validator, opposers, now);
}

} // verus!
