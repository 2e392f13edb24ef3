//! The ballot state machine shared by both voting contracts.
//!
//! A ballot is `Ready` until it is opened, `Active` while votes are accepted,
//! and `Done` once it has been closed and resolved. The two voting variants
//! differ only in how they gate a vote (authorization) and how much weight a
//! vote carries; both compose the same transitions defined here.

use vstd::prelude::*;

use crate::{sat_add32, AccountId, BlockNumber};

verus! {

/// The result of a voting.
#[derive(Copy, Clone, Debug, PartialEq, Eq, Structural)]
pub enum VotingResult {
    For,
    Against,
    Draw,
}

/// Errors returned by the voting contracts.
#[derive(Copy, Clone, Debug, PartialEq, Eq, Structural)]
pub enum VotingError {
    /// Caller is not the admin of the voting.
    NotAdmin,
    /// Caller has already voted.
    AlreadyVoted,
    /// Voting hasn't started yet, has already ended, or its deadline passed.
    VotingNotActive,
    /// Voting cannot be ended (it is not active, or the deadline hasn't been
    /// reached yet).
    CannotEndVoting,
    /// Caller failed the authorization-registry check.
    NotAuthorized,
}

/// Resolution of a finished tally: strictly more votes against means
/// `Against`, strictly fewer means `For`, equality means `Draw`.
pub open spec fn tally_result(votes_for: u32, votes_against: u32) -> VotingResult {
    if votes_against > votes_for {
        VotingResult::Against
    } else if votes_against < votes_for {
        VotingResult::For
    } else {
        VotingResult::Draw
    }
}

/// The mathematical model of a ballot: the voter set is a `Set`, everything
/// else is a plain value.
#[verifier::ext_equal]
pub enum BallotView {
    Ready,
    Active {
        voters: Set<AccountId>,
        votes_for: u32,
        votes_against: u32,
        deadline: BlockNumber,
    },
    Done,
}

impl BallotView {
    /// True while votes may still be recorded (subject to the deadline).
    pub open spec fn is_open(self) -> bool {
        self is Active
    }
}

/// Opening a ballot at tick `now` for `duration` ticks: the tally and the
/// voter set start empty and the deadline is fixed once and for all.
pub open spec fn start_transition(now: BlockNumber, duration: BlockNumber) -> BallotView {
    BallotView::Active {
        voters: Set::empty(),
        votes_for: 0,
        votes_against: 0,
        deadline: sat_add32(now, duration),
    }
}

/// Casting a vote of the given `weight` at tick `now`. Checks run in a fixed
/// order: the ballot must be active, the deadline not reached, the caller
/// authorized, and the caller not yet in the voter set; only then is the
/// tally touched. Every failure leaves the ballot exactly as it was.
pub open spec fn cast_transition(
    b: BallotView,
    caller: AccountId,
    now: BlockNumber,
    authorized: bool,
    weight: u32,
    approve: bool,
) -> (BallotView, Result<(), VotingError>) {
    match b {
        BallotView::Active { voters, votes_for, votes_against, deadline } => {
            if now >= deadline {
                (b, Err(VotingError::VotingNotActive))
            } else if !authorized {
                (b, Err(VotingError::NotAuthorized))
            } else if voters.contains(caller) {
                (b, Err(VotingError::AlreadyVoted))
            } else if approve {
                (
                    BallotView::Active {
                        voters: voters.insert(caller),
                        votes_for: sat_add32(votes_for, weight),
                        votes_against,
                        deadline,
                    },
                    Ok(()),
                )
            } else {
                (
                    BallotView::Active {
                        voters: voters.insert(caller),
                        votes_for,
                        votes_against: sat_add32(votes_against, weight),
                        deadline,
                    },
                    Ok(()),
                )
            }
        },
        _ => (b, Err(VotingError::VotingNotActive)),
    }
}

/// Closing a ballot at tick `now`: only an active ballot whose deadline has
/// been reached can be closed; it resolves by `tally_result` and becomes
/// `Done`. Every failure leaves the ballot exactly as it was.
pub open spec fn end_transition(
    b: BallotView,
    now: BlockNumber,
) -> (BallotView, Result<VotingResult, VotingError>) {
    match b {
        BallotView::Active { voters, votes_for, votes_against, deadline } => {
            if now < deadline {
                (b, Err(VotingError::CannotEndVoting))
            } else {
                (BallotView::Done, Ok(tally_result(votes_for, votes_against)))
            }
        },
        _ => (b, Err(VotingError::CannotEndVoting)),
    }
}

enum State {
    Ready,
    Active {
        voters: Vec<AccountId>,
        votes_for: u32,
        votes_against: u32,
        deadline: BlockNumber,
    },
    Done,
}

/// The executable ballot. Its abstract value is a [`BallotView`]; all
/// operations are specified as the transitions above.
pub struct Ballot {
    state: State,
}

impl View for Ballot {
    type V = BallotView;

    closed spec fn view(&self) -> BallotView {
        match self.state {
            State::Ready => BallotView::Ready,
            State::Active { voters, votes_for, votes_against, deadline } => BallotView::Active {
                voters: voters@.to_set(),
                votes_for,
                votes_against,
                deadline,
            },
            State::Done => BallotView::Done,
        }
    }
}

impl Ballot {
    /// A fresh ballot, not yet opened.
    pub fn new() -> (b: Ballot)
        ensures
            b@ == BallotView::Ready,
    {
        Ballot { state: State::Ready }
    }

    /// Opens the ballot, discarding whatever state it held before.
    pub fn start(&mut self, now: BlockNumber, duration: BlockNumber)
        ensures
            final(self)@ == start_transition(now, duration),
    {
        let voters: Vec<AccountId> = Vec::new();
        proof {
            assert(voters@.to_set() =~= Set::<AccountId>::empty());
        }
        self.state = State::Active {
            voters,
            votes_for: 0,
            votes_against: 0,
            deadline: now.saturating_add(duration),
        };
        proof {
            assert(final(self)@ =~= start_transition(now, duration));
        }
    }

    /// Records one vote of the given `weight`, approving when `approve` is
    /// true; `authorized` is the answer the caller obtained from its
    /// authorization check.
    pub fn cast(
        &mut self,
        caller: AccountId,
        now: BlockNumber,
        authorized: bool,
        weight: u32,
        approve: bool,
    ) -> (r: Result<(), VotingError>)
        ensures
            final(self)@ == cast_transition(old(self)@, caller, now, authorized, weight, approve).0,
            r == cast_transition(old(self)@, caller, now, authorized, weight, approve).1,
    {
        let mut taken = State::Ready;
        core::mem::swap(&mut taken, &mut self.state);
        match taken {
            State::Active { mut voters, votes_for, votes_against, deadline } => {
                if now >= deadline {
                    self.state = State::Active { voters, votes_for, votes_against, deadline };
                    return Err(VotingError::VotingNotActive);
                }
                if !authorized {
                    self.state = State::Active { voters, votes_for, votes_against, deadline };
                    return Err(VotingError::NotAuthorized);
                }
                if contains_account(&voters, caller) {
                    self.state = State::Active { voters, votes_for, votes_against, deadline };
                    return Err(VotingError::AlreadyVoted);
                }
                let ghost pre_voters = voters@;
                voters.push(caller);
                proof {
                    pre_voters.lemma_push_to_set_commute(caller);
                    assert(voters@.to_set() =~= old(self)@->Active_voters.insert(caller));
                }
                if approve {
                    self.state = State::Active {
                        voters,
                        votes_for: votes_for.saturating_add(weight),
                        votes_against,
                        deadline,
                    };
                } else {
                    self.state = State::Active {
                        voters,
                        votes_for,
                        votes_against: votes_against.saturating_add(weight),
                        deadline,
                    };
                }
                proof {
                    assert(final(self)@ =~= cast_transition(
                        old(self)@, caller, now, authorized, weight, approve).0);
                }
                Ok(())
            },
            State::Ready => {
                self.state = State::Ready;
                Err(VotingError::VotingNotActive)
            },
            State::Done => {
                self.state = State::Done;
                Err(VotingError::VotingNotActive)
            },
        }
    }

    /// Closes the ballot and resolves the tally.
    pub fn close(&mut self, now: BlockNumber) -> (r: Result<VotingResult, VotingError>)
        ensures
            final(self)@ == end_transition(old(self)@, now).0,
            r == end_transition(old(self)@, now).1,
    {
        let mut taken = State::Ready;
        core::mem::swap(&mut taken, &mut self.state);
        match taken {
            State::Active { voters, votes_for, votes_against, deadline } => {
                if now < deadline {
                    self.state = State::Active { voters, votes_for, votes_against, deadline };
                    return Err(VotingError::CannotEndVoting);
                }
                self.state = State::Done;
                if votes_against > votes_for {
                    Ok(VotingResult::Against)
                } else if votes_against < votes_for {
                    Ok(VotingResult::For)
                } else {
                    Ok(VotingResult::Draw)
                }
            },
            State::Ready => {
                self.state = State::Ready;
                Err(VotingError::CannotEndVoting)
            },
            State::Done => {
                self.state = State::Done;
                Err(VotingError::CannotEndVoting)
            },
        }
    }
}

/// Law: a vote cast while no ballot is open — before any start, or after
/// the ballot is done — fails with `VotingNotActive` and changes nothing.
pub proof fn lemma_vote_needs_open_ballot(
    b: BallotView,
    caller: AccountId,
    now: BlockNumber,
    authorized: bool,
    weight: u32,
    approve: bool,
)
    requires
        !b.is_open(),
    ensures
        cast_transition(b, caller, now, authorized, weight, approve) == (
            b,
            Err::<(), VotingError>(VotingError::VotingNotActive),
        ),
{
}

/// Law: a vote cast at or past the deadline fails with `VotingNotActive`
/// and changes nothing — the deadline closes the ballot to voters even
/// before the closing operation runs.
pub proof fn lemma_vote_after_deadline_rejected(
    b: BallotView,
    caller: AccountId,
    now: BlockNumber,
    authorized: bool,
    weight: u32,
    approve: bool,
)
    requires
        b is Active,
        now >= b->Active_deadline,
    ensures
        cast_transition(b, caller, now, authorized, weight, approve) == (
            b,
            Err::<(), VotingError>(VotingError::VotingNotActive),
        ),
{
}

/// Law: an unauthorized participant's vote fails with `NotAuthorized` and
/// leaves the tally and the voter set unchanged, whatever its direction and
/// weight.
pub proof fn lemma_unauthorized_vote_rejected(
    b: BallotView,
    caller: AccountId,
    now: BlockNumber,
    weight: u32,
    approve: bool,
)
    ensures
        cast_transition(b, caller, now, false, weight, approve).0 == b,
        b is Active && now < b->Active_deadline ==> cast_transition(
            b,
            caller,
            now,
            false,
            weight,
            approve,
        ).1 == Err::<(), VotingError>(VotingError::NotAuthorized),
{
}

/// Law: no double voting. After a successful vote, any further vote by the
/// same caller on the same ballot changes nothing — and fails with
/// `AlreadyVoted` whenever it gets as far as the duplicate check (cast
/// before the deadline by an authorized caller), in particular when the
/// same participant votes for and then against.
pub proof fn lemma_no_double_vote(
    b: BallotView,
    caller: AccountId,
    now1: BlockNumber,
    now2: BlockNumber,
    authorized2: bool,
    weight1: u32,
    weight2: u32,
    approve1: bool,
    approve2: bool,
)
    requires
        cast_transition(b, caller, now1, true, weight1, approve1).1 == Ok::<(), VotingError>(()),
    ensures
        ({
            let b1 = cast_transition(b, caller, now1, true, weight1, approve1).0;
            &&& cast_transition(b1, caller, now2, authorized2, weight2, approve2).0 == b1
            &&& (authorized2 && now2 < b1->Active_deadline) ==> cast_transition(
                b1,
                caller,
                now2,
                authorized2,
                weight2,
                approve2,
            ).1 == Err::<(), VotingError>(VotingError::AlreadyVoted)
        }),
{
}

/// Law: a ballot that is not open cannot be closed: the attempt fails with
/// `CannotEndVoting` and changes nothing.
pub proof fn lemma_end_needs_open_ballot(b: BallotView, now: BlockNumber)
    requires
        !b.is_open(),
    ensures
        end_transition(b, now) == (
            b,
            Err::<VotingResult, VotingError>(VotingError::CannotEndVoting),
        ),
{
}

/// Law: an open ballot cannot be closed before its deadline: the attempt
/// fails with `CannotEndVoting` and changes nothing.
pub proof fn lemma_end_before_deadline_rejected(b: BallotView, now: BlockNumber)
    requires
        b is Active,
        now < b->Active_deadline,
    ensures
        end_transition(b, now) == (
            b,
            Err::<VotingResult, VotingError>(VotingError::CannotEndVoting),
        ),
{
}

/// Linear scan deciding membership in the voter list.
fn contains_account(voters: &Vec<AccountId>, account: AccountId) -> (r: bool)
    ensures
        r == voters@.to_set().contains(account),
{
    let mut i: usize = 0;
    while i < voters.len()
        invariant
            i <= voters@.len(),
            forall|j: int| 0 <= j < i ==> voters@[j] != account,
        decreases voters@.len() - i,
    {
        if voters[i] == account {
            assert(voters@.contains(account));
            return true;
        }
        i += 1;
    }
    assert(!voters@.contains(account));
    false
}

} // verus!
