use governance_core::common_staking::{CommonStaking, THRESHOLD};
use governance_core::fake_staking::{Error, FakeStaking};
use governance_core::runtime_call::{FakeStakingCall, RuntimeCall};

/// The pool contract's own account on the ledger: the origin of every
/// instruction it forwards.
const POOL: u128 = 100;
const BOB: u128 = 2;

fn forward(pool_call: Option<RuntimeCall>, ledger: &mut FakeStaking) {
    if let Some(call) = pool_call {
        ledger
            .dispatch(POOL, &call)
            .expect("staking ledger rejected the pool's instruction");
    }
}

#[test]
fn user_can_deposit_their_stake() {
    let mut pool = CommonStaking::new();
    let mut ledger = FakeStaking::new();

    forward(pool.stake(10, 10), &mut ledger);
}

#[test]
fn there_is_no_actual_stake_if_the_pool_is_too_poor() {
    let mut pool = CommonStaking::new();
    let mut ledger = FakeStaking::new();

    forward(pool.stake(10, 10), &mut ledger);

    assert!(ledger.stake_of(POOL).is_none());
}

#[test]
fn there_is_an_actual_stake_if_the_pool_has_enough_money() {
    let mut pool = CommonStaking::new();
    let mut ledger = FakeStaking::new();

    forward(pool.stake(100, 100), &mut ledger);

    assert_eq!(ledger.stake_of(POOL), Some(100));
}

#[test]
fn cumulates_stake_from_many_users_and_then_stakes() {
    let mut pool = CommonStaking::new();
    let mut ledger = FakeStaking::new();

    forward(pool.stake(50, 50), &mut ledger);
    assert_eq!(ledger.stake_of(POOL), None);

    // A second depositor brings the accumulated balance to the threshold.
    forward(pool.stake(50, 100), &mut ledger);

    assert_eq!(ledger.stake_of(POOL), Some(100));
}

#[test]
fn stakes_more_if_new_funds_are_deposited() {
    let mut pool = CommonStaking::new();
    let mut ledger = FakeStaking::new();

    forward(pool.stake(500, 500), &mut ledger);
    assert_eq!(ledger.stake_of(POOL), Some(500));

    forward(pool.stake(500, 1000), &mut ledger);
    assert_eq!(ledger.stake_of(POOL), Some(1000));
}

/// The first threshold-crossing call issues an initial `Stake` of the full
/// accumulated amount; afterwards every deposit becomes a `StakeMore` of
/// exactly that deposit.
#[test]
fn pool_decision_table() {
    let mut pool = CommonStaking::new();

    assert_eq!(pool.stake(99, 99), None);
    assert_eq!(
        pool.stake(1, 100),
        Some(RuntimeCall::FakeStaking(FakeStakingCall::Stake { stake: 100 }))
    );
    assert_eq!(
        pool.stake(7, 107),
        Some(RuntimeCall::FakeStaking(FakeStakingCall::StakeMore { more: 7 }))
    );
}

#[test]
fn ledger_rejects_stake_below_threshold() {
    let mut ledger = FakeStaking::new();
    assert_eq!(ledger.stake(BOB, THRESHOLD - 1), Err(Error::NotEnoughStake));
    assert_eq!(ledger.stake_of(BOB), None);
}

#[test]
fn ledger_rejects_double_stake() {
    let mut ledger = FakeStaking::new();
    assert_eq!(ledger.stake(BOB, 100), Ok(()));
    assert_eq!(ledger.stake(BOB, 100), Err(Error::AlreadyStaking));
    assert_eq!(ledger.stake_of(BOB), Some(100));
}

#[test]
fn ledger_rejects_stake_more_without_stake() {
    let mut ledger = FakeStaking::new();
    assert_eq!(ledger.stake_more(BOB, 10), Err(Error::NotStaker));
}

/// The wire form of an initial stake: module tag 4, call tag 1, then the
/// amount as 16 little-endian bytes.
#[test]
fn stake_call_encodes_exactly() {
    let call = RuntimeCall::FakeStaking(FakeStakingCall::Stake { stake: 100 });
    let bytes = call.encode();
    let mut expected = vec![4u8, 1u8, 100u8];
    expected.extend(std::iter::repeat(0u8).take(15));
    assert_eq!(bytes, expected);
}

/// The wire form of an increase-stake instruction, with a two-byte amount.
#[test]
fn stake_more_call_encodes_exactly() {
    let call = RuntimeCall::FakeStaking(FakeStakingCall::StakeMore { more: 0x0201 });
    let bytes = call.encode();
    let mut expected = vec![4u8, 2u8, 0x01u8, 0x02u8];
    expected.extend(std::iter::repeat(0u8).take(14));
    assert_eq!(bytes, expected);
}

/// The amount's bytes agree with the SCALE codec's own encoding of the
/// same value.
#[test]
fn amount_encoding_matches_scale_codec() {
    let amount: u128 = 34358394245459854;
    let call = RuntimeCall::FakeStaking(FakeStakingCall::Stake { stake: amount });
    let bytes = call.encode();
    assert_eq!(bytes[2..], parity_scale_codec::Encode::encode(&amount)[..]);
}
