//! The staking ledger: per-account positions plus the process-wide
//! configuration, advanced by stake, claim and transfer-reward transitions.

use vstd::prelude::*;

use crate::position::REWARD_EPOCH_INTERVAL;
use crate::position::REWARD_RATE_DIVISOR;
use crate::position::RewardIssuance;
use crate::position::StakedTokens;
use crate::position::StakingError;
use crate::position::claim_eligible;
use crate::position::claim_issuance;
use crate::position::claimed_position;
use crate::position::staked_position;
use crate::position::zero_position;

verus! {

/// The staking ledger. The three configuration fields are set at construction
/// and never change; `entries` holds one record per account that has staked,
/// keyed by account identity.
pub struct WinterStakingLedger {
    /// Identifier of the designated stake token.
    pub winter_token_id: u64,
    /// Identifier of the reward token that claims mint.
    pub snow_token_id: u64,
    /// Number of epochs a new stake is locked for.
    pub min_staking_epochs: u64,
    /// One record per account, each account appearing at most once.
    pub entries: Vec<(u64, StakedTokens)>,
}

impl WinterStakingLedger {
    /// Well-formedness: each account has at most one record.
    pub open spec fn wf(self) -> bool {
        forall|i: int, j: int|
            0 <= i < j < self.entries@.len() ==> self.entries@[i].0 != self.entries@[j].0
    }

    /// Whether `address` has a stored record.
    pub open spec fn has_account(self, address: u64) -> bool {
        exists|i: int| 0 <= i < self.entries@.len() && self.entries@[i].0 == address
    }

    /// The position of `address`: its stored record, or the zero position if
    /// it has never staked.
    pub open spec fn spec_position(self, address: u64) -> StakedTokens {
        if self.has_account(address) {
            self.entries@[choose|i: int|
                0 <= i < self.entries@.len() && self.entries@[i].0 == address].1
        } else {
            zero_position()
        }
    }

    /// Whether `self` and `other` carry the same configuration.
    pub open spec fn same_config(self, other: WinterStakingLedger) -> bool {
        &&& self.winter_token_id == other.winter_token_id
        &&& self.snow_token_id == other.snow_token_id
        &&& self.min_staking_epochs == other.min_staking_epochs
    }

    /// In a well-formed ledger, any record found at an index is the account's
    /// position.
    pub proof fn lemma_position_at_index(self, address: u64, i: int)
        requires
            self.wf(),
            0 <= i < self.entries@.len(),
            self.entries@[i].0 == address,
        ensures
            self.has_account(address),
            self.spec_position(address) == self.entries@[i].1,
    {
        assert(self.has_account(address));
        let j = choose|j: int| 0 <= j < self.entries@.len() && self.entries@[j].0 == address;
        if i < j {
            assert(self.entries@[i].0 != self.entries@[j].0);
        } else if j < i {
            assert(self.entries@[j].0 != self.entries@[i].0);
        }
    }

    /// A new ledger with the given configuration and no positions.
    pub fn new(winter_token_id: u64, snow_token_id: u64, min_staking_epochs: u64) -> (r:
        WinterStakingLedger)
        ensures
            r.wf(),
            r.winter_token_id == winter_token_id,
            r.snow_token_id == snow_token_id,
            r.min_staking_epochs == min_staking_epochs,
            forall|a: u64| !r.has_account(a),
            forall|a: u64| r.spec_position(a) == zero_position(),
    {
        WinterStakingLedger { winter_token_id, snow_token_id, min_staking_epochs, entries: Vec::new() }
    }

    /// The index of the record of `address`, if it has one.
    fn find_index(&self, address: u64) -> (r: Option<usize>)
        ensures
            match r {
                Some(i) => i < self.entries@.len() && self.entries@[i as int].0 == address,
                None => !self.has_account(address),
            },
    {
        let mut i: usize = 0;
        while i < self.entries.len()
            invariant
                i <= self.entries@.len(),
                forall|k: int| 0 <= k < i ==> self.entries@[k].0 != address,
            decreases self.entries@.len() - i,
        {
            if self.entries[i].0 == address {
                return Some(i);
            }
            i = i + 1;
        }
        None
    }

    /// Stores `pos` as the record of `address`, overwriting any earlier
    /// record and leaving every other account's position unchanged.
    fn put_position(&mut self, address: u64, pos: StakedTokens)
        requires
            old(self).wf(),
        ensures
            final(self).wf(),
            final(self).same_config(*old(self)),
            final(self).spec_position(address) == pos,
            forall|a: u64|
                a != address ==> final(self).spec_position(a) == old(self).spec_position(a),
    {
        match self.find_index(address) {
            Some(i) => {
                self.entries[i] = (address, pos);
                proof {
                    assert forall|k: int| 0 <= k < self.entries@.len() implies self.entries@[k].0
                        == old(self).entries@[k].0 by {}
                    self.lemma_position_at_index(address, i as int);
                    assert forall|a: u64| a != address implies self.spec_position(a) == old(
                        self,
                    ).spec_position(a) by {
                        if old(self).has_account(a) {
                            let j = choose|j: int|
                                0 <= j < old(self).entries@.len() && old(self).entries@[j].0 == a;
                            old(self).lemma_position_at_index(a, j);
                            self.lemma_position_at_index(a, j);
                        } else {
                            assert(!self.has_account(a));
                        }
                    }
                }
            },
            None => {
                let ghost old_len = self.entries@.len();
                self.entries.push((address, pos));
                proof {
                    assert forall|k: int| 0 <= k < old_len implies self.entries@[k].0 != address
                        by {
                        assert(!old(self).has_account(address));
                    }
                    self.lemma_position_at_index(address, old_len as int);
                    assert forall|a: u64| a != address implies self.spec_position(a) == old(
                        self,
                    ).spec_position(a) by {
                        if old(self).has_account(a) {
                            let j = choose|j: int|
                                0 <= j < old(self).entries@.len() && old(self).entries@[j].0 == a;
                            old(self).lemma_position_at_index(a, j);
                            self.lemma_position_at_index(a, j);
                        } else {
                            assert(!self.has_account(a));
                        }
                    }
                }
            },
        }
    }

    /// The position of `address`: the stored record, or the zero position for
    /// an account with no prior activity. Read-only; never fails.
    pub fn get_staked_tokens(&self, address: u64) -> (r: StakedTokens)
        requires
            self.wf(),
        ensures
            r == self.spec_position(address),
    {
        match self.find_index(address) {
            Some(i) => {
                proof {
                    self.lemma_position_at_index(address, i as int);
                }
                self.entries[i].1
            },
            None => StakedTokens::zero(),
        }
    }

    /// Stakes `amount` of `token` for `caller` at `current_epoch`.
    ///
    /// Rejects a token other than the configured stake token, and a
    /// non-positive amount, with no effect. On success the caller's stake
    /// grows by `amount`, the lock is extended to
    /// `current_epoch + min_staking_epochs`, and the reward-accrual clock
    /// restarts at `current_epoch` for the whole position.
    pub fn stake_token_winter(
        &mut self,
        caller: u64,
        token: u64,
        amount: u128,
        current_epoch: u64,
    ) -> (r: Result<(), StakingError>)
        requires
            old(self).wf(),
            current_epoch + old(self).min_staking_epochs <= u64::MAX,
            old(self).spec_position(caller).amount + amount <= u128::MAX,
        ensures
            final(self).wf(),
            final(self).same_config(*old(self)),
            r is Ok <==> token == old(self).winter_token_id && amount > 0,
            token != old(self).winter_token_id ==> r == Err::<(), StakingError>(
                StakingError::InvalidToken,
            ) && *final(self) == *old(self),
            token == old(self).winter_token_id && amount == 0 ==> r == Err::<(), StakingError>(
                StakingError::InvalidAmount,
            ) && *final(self) == *old(self),
            r is Ok ==> final(self).spec_position(caller) == staked_position(
                old(self).spec_position(caller),
                amount,
                current_epoch,
                old(self).min_staking_epochs,
            ),
            r is Ok ==> forall|a: u64|
                a != caller ==> final(self).spec_position(a) == old(self).spec_position(a),
    {
        if token != self.winter_token_id {
            return Err(StakingError::InvalidToken);
        }
        if amount == 0 {
            return Err(StakingError::InvalidAmount);
        }
        let pos = self.get_staked_tokens(caller);
        let updated = StakedTokens {
            amount: pos.amount + amount,
            lock_until_epoch: current_epoch + self.min_staking_epochs,
            last_claimed_epoch: current_epoch,
        };
        self.put_position(caller, updated);
        Ok(())
    }

    /// Advances `caller`'s accrual clock to `current_epoch` and returns the
    /// reward issuance directed to `to`. Shared by claim and transfer, which
    /// differ only in the destination of the issuance.
    fn issue_rewards_to(&mut self, caller: u64, to: u64, current_epoch: u64) -> (r: Result<
        RewardIssuance,
        StakingError,
    >)
        requires
            old(self).wf(),
            current_epoch >= old(self).spec_position(caller).last_claimed_epoch,
        ensures
            final(self).wf(),
            final(self).same_config(*old(self)),
            r is Ok <==> claim_eligible(old(self).spec_position(caller), current_epoch),
            r is Ok ==> r == Ok::<RewardIssuance, StakingError>(
                claim_issuance(old(self).spec_position(caller), to, old(self).snow_token_id),
            ),
            r is Ok ==> final(self).spec_position(caller) == claimed_position(
                old(self).spec_position(caller),
                current_epoch,
            ),
            r is Ok ==> forall|a: u64|
                a != caller ==> final(self).spec_position(a) == old(self).spec_position(a),
            r is Err ==> r == Err::<RewardIssuance, StakingError>(StakingError::ClaimTooEarly)
                && *final(self) == *old(self),
    {
        let pos = self.get_staked_tokens(caller);
        let epochs_since_last_claim = current_epoch - pos.last_claimed_epoch;
        if epochs_since_last_claim < REWARD_EPOCH_INTERVAL {
            return Err(StakingError::ClaimTooEarly);
        }
        let reward_amount = pos.amount / REWARD_RATE_DIVISOR;
        let token_id = self.snow_token_id;
        let updated = StakedTokens {
            amount: pos.amount,
            lock_until_epoch: pos.lock_until_epoch,
            last_claimed_epoch: current_epoch,
        };
        self.put_position(caller, updated);
        Ok(RewardIssuance { to, token_id, amount: reward_amount })
    }

    /// Claims the accrued reward for `caller` at `current_epoch`.
    ///
    /// Rejects the claim with no effect if less than `REWARD_EPOCH_INTERVAL`
    /// epochs have elapsed since the caller's clock was last reset. On
    /// success the clock is reset to `current_epoch` and the returned
    /// issuance mints one percent of the staked amount, rounded down, of the
    /// reward token to the caller. The clock reset and the issuance form one
    /// transition: the host must apply both or neither.
    pub fn claim_rewards(&mut self, caller: u64, current_epoch: u64) -> (r: Result<
        RewardIssuance,
        StakingError,
    >)
        requires
            old(self).wf(),
            current_epoch >= old(self).spec_position(caller).last_claimed_epoch,
        ensures
            final(self).wf(),
            final(self).same_config(*old(self)),
            r is Ok <==> claim_eligible(old(self).spec_position(caller), current_epoch),
            r is Ok ==> r == Ok::<RewardIssuance, StakingError>(
                claim_issuance(old(self).spec_position(caller), caller, old(self).snow_token_id),
            ),
            r is Ok ==> final(self).spec_position(caller) == claimed_position(
                old(self).spec_position(caller),
                current_epoch,
            ),
            r is Ok ==> forall|a: u64|
                a != caller ==> final(self).spec_position(a) == old(self).spec_position(a),
            r is Err ==> r == Err::<RewardIssuance, StakingError>(StakingError::ClaimTooEarly)
                && *final(self) == *old(self),
    {
        self.issue_rewards_to(caller, caller, current_epoch)
    }

    /// Claims the accrued reward for `caller` at `current_epoch`, directing
    /// the minted reward to `recipient` instead of the caller.
    ///
    /// Eligibility, the reward amount and the clock reset are exactly those
    /// of `claim_rewards`, keyed off the caller's position; only the
    /// destination of the issuance differs.
    pub fn transfer_rewards(&mut self, caller: u64, recipient: u64, current_epoch: u64) -> (r:
        Result<RewardIssuance, StakingError>)
        requires
            old(self).wf(),
            current_epoch >= old(self).spec_position(caller).last_claimed_epoch,
        ensures
            final(self).wf(),
            final(self).same_config(*old(self)),
            r is Ok <==> claim_eligible(old(self).spec_position(caller), current_epoch),
            r is Ok ==> r == Ok::<RewardIssuance, StakingError>(
                claim_issuance(old(self).spec_position(caller), recipient, old(self).snow_token_id),
            ),
            r is Ok ==> final(self).spec_position(caller) == claimed_position(
                old(self).spec_position(caller),
                current_epoch,
            ),
            r is Ok ==> forall|a: u64|
                a != caller ==> final(self).spec_position(a) == old(self).spec_position(a),
            r is Err ==> r == Err::<RewardIssuance, StakingError>(StakingError::ClaimTooEarly)
                && *final(self) == *old(self),
    {
        self.issue_rewards_to(caller, recipient, current_epoch)
    }
}

} // verus!
