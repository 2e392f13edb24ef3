use governance_core::ballot::{VotingError, VotingResult};
use governance_core::enroll::Enroll;
use governance_core::oracle::AuthorizationOracle;
use governance_core::voting::Voting;

const ADMIN: u128 = 1;
const BOB: u128 = 2;
const CHARLIE: u128 = 3;

fn deploy_contracts() -> (Enroll, Voting) {
    let enroll = Enroll::new();
    let voting = Voting::new(String::from("Test Voting"), ADMIN);
    (enroll, voting)
}

#[test]
fn contract_deployment_works() {
    let (enroll, voting) = deploy_contracts();
    assert!(!enroll.is_active(BOB, 0));
    assert_eq!(voting.admin(), ADMIN);
    assert_eq!(voting.title().as_str(), "Test Voting");
}

#[test]
fn non_admin_cannot_start_voting() {
    let (_enroll, mut voting) = deploy_contracts();

    let error = voting.start_voting(BOB, 0, 10);
    assert_eq!(error, Err(VotingError::NotAdmin));
}

#[test]
fn cannot_end_voting_before_start() {
    let (_enroll, mut voting) = deploy_contracts();

    let error = voting.end_voting(ADMIN, 0);
    assert_eq!(error, Err(VotingError::CannotEndVoting));
}

#[test]
fn cannot_end_voting_before_deadline() {
    let (_enroll, mut voting) = deploy_contracts();

    voting
        .start_voting(ADMIN, 0, 10)
        .expect("start_voting failed");

    let error = voting.end_voting(ADMIN, 5);
    assert_eq!(error, Err(VotingError::CannotEndVoting));
}

#[test]
fn non_admin_cannot_end_voting() {
    let (_enroll, mut voting) = deploy_contracts();

    voting
        .start_voting(ADMIN, 0, 10)
        .expect("start_voting failed");

    let error = voting.end_voting(BOB, 15);
    assert_eq!(error, Err(VotingError::NotAdmin));
}

#[test]
fn no_vote_voting() {
    let (_enroll, mut voting) = deploy_contracts();

    voting
        .start_voting(ADMIN, 0, 10)
        .expect("start_voting failed");

    let result = voting.end_voting(ADMIN, 15).expect("end_voting failed");
    assert_eq!(result, VotingResult::Draw);
}

#[test]
fn expired_subscribers_cannot_vote() {
    let (mut enroll, mut voting) = deploy_contracts();

    enroll.subscribe(BOB, 0, 1); // this will be enough for 10 blocks

    voting
        .start_voting(ADMIN, 15, 10)
        .expect("start_voting failed");

    let error = voting.vote_for(&enroll, BOB, 15);
    assert_eq!(error, Err(VotingError::NotAuthorized));
}

/// A second vote by the same participant — for, then against — fails with
/// `AlreadyVoted` and leaves the against-tally untouched.
#[test]
fn cannot_vote_two_times() {
    let (mut enroll, mut voting) = deploy_contracts();

    enroll.subscribe(BOB, 0, 1);
    voting
        .start_voting(ADMIN, 0, 10)
        .expect("start_voting failed");

    voting.vote_for(&enroll, BOB, 1).expect("vote_for failed");
    let error = voting.vote_against(&enroll, BOB, 2);
    assert_eq!(error, Err(VotingError::AlreadyVoted));

    // votes_against was unaffected: the single vote for still wins.
    let result = voting.end_voting(ADMIN, 10).expect("end_voting failed");
    assert_eq!(result, VotingResult::For);
}

#[test]
fn voting_works() {
    let (mut enroll, mut voting) = deploy_contracts();

    enroll.subscribe(ADMIN, 0, 10);
    enroll.subscribe(BOB, 0, 10);
    enroll.subscribe(CHARLIE, 0, 10);

    voting
        .start_voting(ADMIN, 0, 10)
        .expect("start_voting failed");

    voting.vote_for(&enroll, ADMIN, 1).expect("vote_for failed");
    voting.vote_for(&enroll, BOB, 2).expect("vote_for failed");
    voting
        .vote_against(&enroll, CHARLIE, 3)
        .expect("vote_against failed");

    let result = voting.end_voting(ADMIN, 10).expect("end_voting failed");
    assert_eq!(result, VotingResult::For);
}

#[test]
fn standard_account_can_vote() {
    let (mut enroll, mut voting) = deploy_contracts();

    enroll.subscribe(ADMIN, 0, 1);

    voting
        .start_voting(ADMIN, 0, 10)
        .expect("start_voting failed");

    voting.vote_for(&enroll, ADMIN, 0).expect("vote_for failed");

    let result = voting.end_voting(ADMIN, 20).expect("end_voting failed");
    assert_eq!(result, VotingResult::For);
}

/// An unauthorized vote leaves the tally and the voter set unchanged: the
/// rejected participant can vote after subscribing, and the tally shows
/// only accepted votes.
#[test]
fn rejected_vote_leaves_tally_unchanged() {
    let (mut enroll, mut voting) = deploy_contracts();

    voting
        .start_voting(ADMIN, 0, 10)
        .expect("start_voting failed");

    assert_eq!(
        voting.vote_against(&enroll, BOB, 1),
        Err(VotingError::NotAuthorized)
    );

    enroll.subscribe(BOB, 2, 1);
    voting.vote_for(&enroll, BOB, 3).expect("vote_for failed");

    let result = voting.end_voting(ADMIN, 10).expect("end_voting failed");
    assert_eq!(result, VotingResult::For);
}

/// The authorization check runs before the duplicate check: a double-voting
/// caller whose subscription has lapsed receives `NotAuthorized`, not
/// `AlreadyVoted`.
#[test]
fn authorization_checked_before_duplicate() {
    let (mut enroll, mut voting) = deploy_contracts();

    enroll.subscribe(BOB, 0, 1); // active until block 10
    voting
        .start_voting(ADMIN, 0, 20)
        .expect("start_voting failed");

    voting.vote_for(&enroll, BOB, 1).expect("vote_for failed");

    // By block 15 the subscription has expired while the ballot is open.
    let error = voting.vote_against(&enroll, BOB, 15);
    assert_eq!(error, Err(VotingError::NotAuthorized));
}

fn run_tally(votes_for: u32, votes_against: u32) -> VotingResult {
    let mut enroll = Enroll::new();
    let mut voting = Voting::new(String::from("Tally"), ADMIN);
    voting
        .start_voting(ADMIN, 0, 10)
        .expect("start_voting failed");

    let mut account: u128 = 10;
    let mut cast: u32 = 0;
    while cast < votes_for {
        enroll.subscribe(account, 0, 1);
        voting.vote_for(&enroll, account, 1).expect("vote_for failed");
        account += 1;
        cast += 1;
    }
    let mut cast: u32 = 0;
    while cast < votes_against {
        enroll.subscribe(account, 0, 1);
        voting
            .vote_against(&enroll, account, 1)
            .expect("vote_against failed");
        account += 1;
        cast += 1;
    }

    voting.end_voting(ADMIN, 10).expect("end_voting failed")
}

#[test]
fn tally_three_against_three_is_draw() {
    assert_eq!(run_tally(3, 3), VotingResult::Draw);
}

#[test]
fn tally_four_against_one_is_for() {
    assert_eq!(run_tally(4, 1), VotingResult::For);
}

#[test]
fn tally_zero_against_one_is_against() {
    assert_eq!(run_tally(0, 1), VotingResult::Against);
}

/// Once ended, the ballot stays done — votes and a second closing are
/// rejected — until a fresh `start_voting` reopens it.
#[test]
fn ended_voting_stays_done() {
    let (mut enroll, mut voting) = deploy_contracts();

    enroll.subscribe(BOB, 0, 10);
    voting
        .start_voting(ADMIN, 0, 5)
        .expect("start_voting failed");
    let result = voting.end_voting(ADMIN, 5).expect("end_voting failed");
    assert_eq!(result, VotingResult::Draw);

    assert_eq!(
        voting.vote_for(&enroll, BOB, 6),
        Err(VotingError::VotingNotActive)
    );
    assert_eq!(voting.end_voting(ADMIN, 6), Err(VotingError::CannotEndVoting));

    voting
        .start_voting(ADMIN, 6, 5)
        .expect("start_voting failed");
    voting.vote_for(&enroll, BOB, 7).expect("vote_for failed");
    let result = voting.end_voting(ADMIN, 11).expect("end_voting failed");
    assert_eq!(result, VotingResult::For);
}

/// `start_voting` resets even an active ballot: the discarded ballot's
/// votes are gone and the voter may vote again on the fresh one.
#[test]
fn restart_discards_active_ballot() {
    let (mut enroll, mut voting) = deploy_contracts();

    enroll.subscribe(BOB, 0, 10);
    voting
        .start_voting(ADMIN, 0, 10)
        .expect("start_voting failed");
    voting.vote_for(&enroll, BOB, 1).expect("vote_for failed");

    voting
        .start_voting(ADMIN, 2, 10)
        .expect("start_voting failed");
    voting
        .vote_against(&enroll, BOB, 3)
        .expect("vote_against failed");

    let result = voting.end_voting(ADMIN, 12).expect("end_voting failed");
    assert_eq!(result, VotingResult::Against);
}
