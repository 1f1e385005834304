//! Laws of the staking ledger: properties that hold of every input, proved
//! from the same spec functions the operations' contracts are stated over.

use vstd::prelude::*;

use crate::ledger::WinterStakingLedger;
use crate::position::REWARD_RATE_DIVISOR;
use crate::position::StakedTokens;
use crate::position::claim_eligible;
use crate::position::claim_issuance;
use crate::position::claimed_position;
use crate::position::reward_of;
use crate::position::staked_position;
use crate::position::zero_position;

verus! {

/// An account with no prior activity reads as the zero position: amount 0,
/// lock epoch 0, accrual clock at 0.
pub proof fn lemma_unstaked_position_is_zero(ledger: WinterStakingLedger, address: u64)
    requires
        !ledger.has_account(address),
    ensures
        ledger.spec_position(address) == zero_position(),
{
}

/// Reading a position is idempotent: any two reads of the same account with
/// no mutation in between return the same record. `get_staked_tokens` takes
/// the ledger by shared reference and promises its result equals
/// `spec_position`, so both reads meet the premises below.
pub proof fn lemma_get_position_idempotent(
    ledger: WinterStakingLedger,
    address: u64,
    first: StakedTokens,
    second: StakedTokens,
)
    requires
        first == ledger.spec_position(address),
        second == ledger.spec_position(address),
    ensures
        first == second,
{
}

/// A claim in the very epoch of a stake is always too early: staking resets
/// the accrual clock to the stake epoch, so no interval has elapsed yet.
pub proof fn lemma_claim_in_stake_epoch_too_early(
    pos: StakedTokens,
    amount: u128,
    current_epoch: u64,
    min_staking_epochs: u64,
)
    ensures
        !claim_eligible(staked_position(pos, amount, current_epoch, min_staking_epochs), current_epoch),
{
}

/// Transferring rewards computes eligibility, the position update and the
/// reward amount exactly as claiming does — both contracts are stated over
/// `claim_eligible`, `claimed_position` and `claim_issuance` — and only the
/// destination of the issuance differs: the recipient instead of the caller.
pub proof fn lemma_transfer_matches_claim(
    pos: StakedTokens,
    caller: u64,
    recipient: u64,
    reward_token_id: u64,
)
    ensures
        claim_issuance(pos, recipient, reward_token_id).amount == claim_issuance(
            pos,
            caller,
            reward_token_id,
        ).amount,
        claim_issuance(pos, recipient, reward_token_id).token_id == claim_issuance(
            pos,
            caller,
            reward_token_id,
        ).token_id,
        claim_issuance(pos, recipient, reward_token_id).to == recipient,
        claim_issuance(pos, caller, reward_token_id).to == caller,
{
}

/// Rewards do not compound: two consecutive eligible claims each pay one
/// percent of the staked amount current at that claim, which a claim never
/// changes, and each resets the accrual clock to its own epoch.
pub proof fn lemma_consecutive_claims_not_compounding(
    pos: StakedTokens,
    first_epoch: u64,
    second_epoch: u64,
)
    requires
        claim_eligible(pos, first_epoch),
        claim_eligible(claimed_position(pos, first_epoch), second_epoch),
    ensures
        claimed_position(pos, first_epoch).amount == pos.amount,
        reward_of(pos) == pos.amount / REWARD_RATE_DIVISOR,
        reward_of(claimed_position(pos, first_epoch)) == pos.amount / REWARD_RATE_DIVISOR,
        claimed_position(pos, first_epoch).last_claimed_epoch == first_epoch,
        claimed_position(claimed_position(pos, first_epoch), second_epoch).last_claimed_epoch
            == second_epoch,
{
}

/// A staked amount never decreases: staking adds to it and claiming leaves
/// it untouched. The accrual clock never moves backwards either, given the
/// monotonically non-decreasing epochs the host supplies.
pub proof fn lemma_position_monotone(
    pos: StakedTokens,
    amount: u128,
    current_epoch: u64,
    min_staking_epochs: u64,
)
    requires
        pos.amount + amount <= u128::MAX,
        current_epoch >= pos.last_claimed_epoch,
    ensures
        staked_position(pos, amount, current_epoch, min_staking_epochs).amount >= pos.amount,
        claimed_position(pos, current_epoch).amount == pos.amount,
        staked_position(pos, amount, current_epoch, min_staking_epochs).last_claimed_epoch
            >= pos.last_claimed_epoch,
        claimed_position(pos, current_epoch).last_claimed_epoch >= pos.last_claimed_epoch,
{
}

} // verus!
