use governance_core::ballot::VotingResult;
use governance_core::fake_staking::FakeStaking;
use governance_core::weighted_voting::{StakingExtensionErrorCode, WeightedVoting};

const ADMIN: u128 = 1;
const BOB: u128 = 2;
const CHARLIE: u128 = 3;

fn deploy_contract() -> (FakeStaking, WeightedVoting) {
    let ledger = FakeStaking::new();
    let voting = WeightedVoting::new(String::from("Test Voting"), ADMIN);
    (ledger, voting)
}

#[test]
fn standard_voting_works() {
    let (ledger, mut voting) = deploy_contract();

    voting
        .start_voting(ADMIN, 0, 1)
        .expect("start_voting failed");
    voting.vote_for(&ledger, ADMIN, 0).expect("vote_for failed");

    let result = voting.end_voting(ADMIN, 1).expect("end_voting failed");
    assert_eq!(result, VotingResult::For);
}

#[test]
fn standard_voting_works_multiple_actors() {
    let (ledger, mut voting) = deploy_contract();

    voting
        .start_voting(ADMIN, 0, 1)
        .expect("start_voting failed");
    voting.vote_for(&ledger, ADMIN, 0).expect("vote_for failed");
    voting
        .vote_against(&ledger, BOB, 0)
        .expect("vote_against failed");
    voting
        .vote_against(&ledger, CHARLIE, 0)
        .expect("vote_against failed");

    let result = voting.end_voting(ADMIN, 1).expect("end_voting failed");
    assert_eq!(result, VotingResult::Against);
}

#[test]
fn validator_overvotes_others() {
    let (mut ledger, mut voting) = deploy_contract();

    ledger.become_validator(ADMIN);

    voting
        .start_voting(ADMIN, 0, 1)
        .expect("start_voting failed");
    voting.vote_for(&ledger, ADMIN, 0).expect("vote_for failed");
    voting
        .vote_against(&ledger, BOB, 0)
        .expect("vote_against failed");
    voting
        .vote_against(&ledger, CHARLIE, 0)
        .expect("vote_against failed");

    let result = voting.end_voting(ADMIN, 1).expect("end_voting failed");
    assert_eq!(result, VotingResult::For);
}

/// The host status code of the validator oracle's extension: 0 is success,
/// anything else an oracle-level failure carrying the code.
#[test]
fn status_code_mapping() {
    assert_eq!(StakingExtensionErrorCode::from_status_code(0), Ok(()));
    assert_eq!(
        StakingExtensionErrorCode::from_status_code(5),
        Err(StakingExtensionErrorCode(5))
    );
}
