//! The staking ledger's wire interface: the two write-only instructions the
//! pool can issue, and their binary encoding.
//!
//! An instruction travels as a fixed tagged union: an outer tag selecting
//! the ledger module within the runtime, an inner tag selecting the
//! operation, then the operation's fields in SCALE's fixed-width
//! little-endian form. The tag values are deployment configuration; the
//! ones here address the ledger at module index 4 with `stake` and
//! `stake_more` at call indices 1 and 2.

use vstd::prelude::*;

use crate::Balance;

verus! {

/// The module index of the staking ledger within the runtime's call union
/// (its 0-based position among the runtime's pallets).
pub const STAKING_MODULE_INDEX: u8 = 4;

/// The call index of the ledger's initial-stake operation.
pub const STAKE_CALL_INDEX: u8 = 1;

/// The call index of the ledger's increase-stake operation.
pub const STAKE_MORE_CALL_INDEX: u8 = 2;

/// An operation of the staking ledger.
#[derive(Copy, Clone, Debug, PartialEq, Eq, Structural)]
pub enum FakeStakingCall {
    /// Place an initial stake of the given amount.
    Stake { stake: Balance },
    /// Increase an existing stake by the given amount.
    StakeMore { more: Balance },
}

/// A runtime call the pool can issue: the outer level of the tagged union.
#[derive(Copy, Clone, Debug, PartialEq, Eq, Structural)]
pub enum RuntimeCall {
    FakeStaking(FakeStakingCall),
}

/// The little-endian byte string of `v`, `n` bytes long.
pub open spec fn le_bytes(v: nat, n: nat) -> Seq<u8>
    decreases n,
{
    if n == 0 {
        Seq::empty()
    } else {
        seq![(v % 256) as u8] + le_bytes(v / 256, (n - 1) as nat)
    }
}

/// SCALE encoding of a balance: exactly its 16 little-endian bytes.
pub open spec fn balance_le_bytes(v: Balance) -> Seq<u8> {
    le_bytes(v as nat, 16)
}

/// The wire form of a runtime call: outer tag, inner tag, then the amount.
pub open spec fn encoded_call(call: RuntimeCall) -> Seq<u8> {
    match call {
        RuntimeCall::FakeStaking(FakeStakingCall::Stake { stake }) => seq![
            STAKING_MODULE_INDEX,
            STAKE_CALL_INDEX,
        ] + balance_le_bytes(stake),
        RuntimeCall::FakeStaking(FakeStakingCall::StakeMore { more }) => seq![
            STAKING_MODULE_INDEX,
            STAKE_MORE_CALL_INDEX,
        ] + balance_le_bytes(more),
    }
}

/// Relies on `parity_scale_codec`'s `Encode` for `u128`: SCALE encodes a
/// fixed-width integer as its little-endian bytes (`to_le_bytes`), 16 of
/// them for a `u128`.
#[verifier::external_body]
fn encode_balance(v: Balance) -> (r: Vec<u8>)
    ensures
        r@ == balance_le_bytes(v),
{
    parity_scale_codec::Encode::encode(&v)
}

impl RuntimeCall {
    /// The instruction's wire form, ready to hand to the runtime.
    pub fn encode(&self) -> (r: Vec<u8>)
        ensures
            r@ == encoded_call(*self),
    {
        let mut out: Vec<u8> = Vec::new();
        match self {
            RuntimeCall::FakeStaking(FakeStakingCall::Stake { stake }) => {
                out.push(STAKING_MODULE_INDEX);
                out.push(STAKE_CALL_INDEX);
                let mut amount = encode_balance(*stake);
                out.append(&mut amount);
            },
            RuntimeCall::FakeStaking(FakeStakingCall::StakeMore { more }) => {
                out.push(STAKING_MODULE_INDEX);
                out.push(STAKE_MORE_CALL_INDEX);
                let mut amount = encode_balance(*more);
                out.append(&mut amount);
            },
        }
        proof {
            assert(out@ =~= encoded_call(*self));
        }
        out
    }
}

} // verus!
