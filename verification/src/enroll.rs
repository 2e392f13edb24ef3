//! The enrollment registry: a time-bounded authorization per participant,
//! funded by fee deposits.
//!
//! A participant's record is its expiry tick. Paying a fee extends the
//! expiry by `BLOCKS_FOR_TOKEN` blocks per token, counted from the later of
//! the current expiry and the current tick, with saturating arithmetic —
//! an expiry never shrinks. Records are never deleted; a stale record simply
//! reads as inactive once the current tick reaches it.

use std::collections::HashMap;

use vstd::prelude::*;

use crate::oracle::AuthorizationOracle;
use crate::{sat_add32, AccountId, Balance, BlockNumber};

verus! {

broadcast use vstd::std_specs::hash::group_hash_axioms;

/// The number of blocks a user is subscribed for when paying 1 token.
pub const BLOCKS_FOR_TOKEN: u32 = 10;

/// The tick from which a (re)subscription extends: the current expiry if it
/// lies in the future, otherwise the current tick.
pub open spec fn renewal_base(prev: Option<BlockNumber>, now: BlockNumber) -> BlockNumber {
    match prev {
        Some(expiry) => if expiry > now {
            expiry
        } else {
            now
        },
        None => now,
    }
}

/// The number of blocks a fee buys: `BLOCKS_FOR_TOKEN` per token, saturated
/// into a block number.
pub open spec fn purchased_blocks(fee: Balance) -> BlockNumber {
    if fee * BLOCKS_FOR_TOKEN > u32::MAX {
        u32::MAX
    } else {
        (fee * BLOCKS_FOR_TOKEN) as u32
    }
}

/// The expiry a subscription has after paying `fee` at tick `now`, given the
/// previous record.
pub open spec fn new_expiry(prev: Option<BlockNumber>, now: BlockNumber, fee: Balance) -> BlockNumber {
    sat_add32(renewal_base(prev, now), purchased_blocks(fee))
}

/// The registry's records after a `subscribe` call: unchanged for a zero
/// fee, otherwise the caller's record is upserted to its new expiry.
pub open spec fn subscribe_map(
    m: Map<AccountId, BlockNumber>,
    caller: AccountId,
    now: BlockNumber,
    fee: Balance,
) -> Map<AccountId, BlockNumber> {
    if fee == 0 {
        m
    } else {
        let prev = if m.contains_key(caller) {
            Some(m[caller])
        } else {
            None
        };
        m.insert(caller, new_expiry(prev, now, fee))
    }
}

/// Whether `account` holds an active authorization at tick `now`: a record
/// exists and its expiry lies strictly in the future.
pub open spec fn active_in(m: Map<AccountId, BlockNumber>, account: AccountId, now: BlockNumber) -> bool {
    m.contains_key(account) && m[account] > now
}

/// The enrollment registry. Its abstract value is the map from participant
/// to expiry tick.
pub struct Enroll {
    subscriptions: HashMap<AccountId, BlockNumber>,
}

impl View for Enroll {
    type V = Map<AccountId, BlockNumber>;

    closed spec fn view(&self) -> Map<AccountId, BlockNumber> {
        self.subscriptions@
    }
}

impl Enroll {
    /// A fresh registry with no records.
    pub fn new() -> (e: Enroll)
        ensures
            e@ == Map::<AccountId, BlockNumber>::empty(),
    {
        Enroll { subscriptions: HashMap::new() }
    }

    /// Subscribes `caller` for a period proportional to the transferred
    /// `fee`. A zero fee is a no-op; otherwise the caller's expiry is
    /// extended from the later of its current expiry and `now`.
    pub fn subscribe(&mut self, caller: AccountId, now: BlockNumber, fee: Balance)
        ensures
            final(self)@ == subscribe_map(old(self)@, caller, now, fee),
            fee == 0 ==> *final(self) == *old(self),
    {
        if fee == 0 {
            return ;
        }
        let prev: Option<BlockNumber> = match self.subscriptions.get(&caller) {
            Some(expiry) => Some(*expiry),
            None => None,
        };
        let base: BlockNumber = match prev {
            Some(expiry) => if expiry > now {
                expiry
            } else {
                now
            },
            None => now,
        };
        let blocks: u32 = match fee.checked_mul(BLOCKS_FOR_TOKEN as Balance) {
            Some(product) => if product > u32::MAX as Balance {
                u32::MAX
            } else {
                product as u32
            },
            None => u32::MAX,
        };
        let expiry = base.saturating_add(blocks);
        self.subscriptions.insert(caller, expiry);
    }
}

impl Default for Enroll {
    /// Same as `new`: a registry with no records.
    fn default() -> (e: Enroll)
        ensures
            e@ == Map::<AccountId, BlockNumber>::empty(),
    {
        Enroll::new()
    }
}

impl AuthorizationOracle for Enroll {
    open spec fn active_spec(&self, account: AccountId, now: BlockNumber) -> bool {
        active_in(self@, account, now)
    }

    /// Returns `true` if the given account has an active subscription.
    fn is_active(&self, account: AccountId, now: BlockNumber) -> bool {
        match self.subscriptions.get(&account) {
            Some(subscription_end) => *subscription_end > now,
            None => false,
        }
    }
}

/// Law: a zero-fee `subscribe` is a true no-op — the records are unchanged,
/// so every activity query is unaffected.
pub proof fn lemma_zero_fee_subscribe_is_noop(m: Map<AccountId, BlockNumber>, caller: AccountId, now: BlockNumber)
    ensures
        subscribe_map(m, caller, now, 0) == m,
{
}

/// Law: any `subscribe` with a positive fee makes the caller active
/// immediately (at any tick short of the last representable one, where no
/// expiry can lie strictly beyond the clock).
pub proof fn lemma_subscribe_activates(
    m: Map<AccountId, BlockNumber>,
    caller: AccountId,
    now: BlockNumber,
    fee: Balance,
)
    requires
        fee > 0,
        now < u32::MAX,
    ensures
        active_in(subscribe_map(m, caller, now, fee), caller, now),
{
}

/// Law: an expiry is monotonically non-decreasing under repeated top-ups —
/// no `subscribe` call ever shrinks an existing record.
pub proof fn lemma_subscribe_monotonic(
    m: Map<AccountId, BlockNumber>,
    caller: AccountId,
    now: BlockNumber,
    fee: Balance,
)
    requires
        m.contains_key(caller),
    ensures
        subscribe_map(m, caller, now, fee).contains_key(caller),
        subscribe_map(m, caller, now, fee)[caller] >= m[caller],
{
}

/// Law: a participant with no record who pays `fee` at tick `now` is active
/// at exactly the ticks before `now + BLOCKS_FOR_TOKEN * fee` (absent
/// saturation): the subscription lasts that many ticks from its baseline.
pub proof fn lemma_fresh_subscription_window(
    m: Map<AccountId, BlockNumber>,
    caller: AccountId,
    now: BlockNumber,
    fee: Balance,
    t: BlockNumber,
)
    requires
        !m.contains_key(caller),
        fee > 0,
        now + fee * BLOCKS_FOR_TOKEN <= u32::MAX,
    ensures
        active_in(subscribe_map(m, caller, now, fee), caller, t) <==> t < now + fee
            * BLOCKS_FOR_TOKEN,
{
}

/// Law: a top-up while the subscription is still running extends the expiry
/// by exactly `BLOCKS_FOR_TOKEN * fee` ticks (absent saturation): the active
/// window grows with the cumulative fee.
pub proof fn lemma_topup_extends_window(
    m: Map<AccountId, BlockNumber>,
    caller: AccountId,
    now: BlockNumber,
    fee: Balance,
)
    requires
        m.contains_key(caller),
        m[caller] > now,
        fee > 0,
        m[caller] + fee * BLOCKS_FOR_TOKEN <= u32::MAX,
    ensures
        subscribe_map(m, caller, now, fee)[caller] == m[caller] + fee * BLOCKS_FOR_TOKEN,
{
}

} // verus!
