//! The per-account staking record and the transitions applied to it.
//!
//! A position holds the total staked amount, the epoch until which the stake
//! is locked, and the epoch at which the reward-accrual clock was last reset.
//! An account that has never staked is read as the zero position.

use vstd::prelude::*;

verus! {

/// The number of epochs that must elapse since the last claim (or stake)
/// before a reward may be claimed again.
pub const REWARD_EPOCH_INTERVAL: u64 = 1;

/// The reward paid per eligible interval is `amount / REWARD_RATE_DIVISOR`,
/// that is, one percent of the staked amount, rounded down.
pub const REWARD_RATE_DIVISOR: u128 = 100;

/// The staking record of a single account.
#[derive(Clone, Copy, Debug, PartialEq, Eq, Structural)]
pub struct StakedTokens {
    /// Total amount currently staked; it only ever increases.
    pub amount: u128,
    /// Epoch after which the stake is unlocked (recorded, not enforced here:
    /// no withdrawal operation exists).
    pub lock_until_epoch: u64,
    /// Epoch at which the reward-accrual clock was last reset.
    pub last_claimed_epoch: u64,
}

/// The reward issuance a successful claim or transfer asks the host to
/// perform: mint `amount` of the reward token to `to`, all or nothing.
#[derive(Clone, Copy, Debug, PartialEq, Eq, Structural)]
pub struct RewardIssuance {
    /// Account that receives the minted reward tokens.
    pub to: u64,
    /// Identifier of the reward token to mint.
    pub token_id: u64,
    /// Number of reward tokens to mint.
    pub amount: u128,
}

/// Why a staking operation was rejected. Every failure is detected before any
/// mutation: a rejected operation leaves the ledger unchanged.
#[derive(Clone, Copy, Debug, PartialEq, Eq, Structural)]
pub enum StakingError {
    /// The token presented to a stake call is not the configured stake token.
    InvalidToken,
    /// The stake amount is not positive.
    InvalidAmount,
    /// The reward interval has not yet elapsed since the last claim.
    ClaimTooEarly,
}

/// The implicit record of an account with no prior activity.
pub open spec fn zero_position() -> StakedTokens {
    StakedTokens { amount: 0, lock_until_epoch: 0, last_claimed_epoch: 0 }
}

/// The record after staking `amount` more at `current_epoch`: the stake grows,
/// the lock is extended to `current_epoch + min_staking_epochs`, and the
/// accrual clock restarts for the whole position, not just the increment.
pub open spec fn staked_position(
    pos: StakedTokens,
    amount: u128,
    current_epoch: u64,
    min_staking_epochs: u64,
) -> StakedTokens {
    StakedTokens {
        amount: (pos.amount + amount) as u128,
        lock_until_epoch: (current_epoch + min_staking_epochs) as u64,
        last_claimed_epoch: current_epoch,
    }
}

/// Whether a reward may be claimed at `current_epoch`: at least
/// `REWARD_EPOCH_INTERVAL` epochs have elapsed since the clock was last reset.
pub open spec fn claim_eligible(pos: StakedTokens, current_epoch: u64) -> bool {
    current_epoch >= pos.last_claimed_epoch + REWARD_EPOCH_INTERVAL
}

/// The reward paid by one eligible claim: one percent of the currently staked
/// amount, rounded down. It is not scaled by the number of elapsed intervals.
pub open spec fn reward_of(pos: StakedTokens) -> u128 {
    pos.amount / REWARD_RATE_DIVISOR
}

/// The record after a successful claim at `current_epoch`: only the accrual
/// clock advances; the staked amount and the lock are untouched.
pub open spec fn claimed_position(pos: StakedTokens, current_epoch: u64) -> StakedTokens {
    StakedTokens {
        amount: pos.amount,
        lock_until_epoch: pos.lock_until_epoch,
        last_claimed_epoch: current_epoch,
    }
}

/// The issuance a successful claim of `pos` asks for, directed to `to`.
pub open spec fn claim_issuance(pos: StakedTokens, to: u64, reward_token_id: u64) -> RewardIssuance {
    RewardIssuance { to, token_id: reward_token_id, amount: reward_of(pos) }
}

impl StakedTokens {
    /// The zero position, as executable code.
    pub fn zero() -> (r: StakedTokens)
        ensures
            r == zero_position(),
    {
        StakedTokens { amount: 0, lock_until_epoch: 0, last_claimed_epoch: 0 }
    }
}

} // verus!
