use winter_staking::ledger::WinterStakingLedger;
use winter_staking::position::RewardIssuance;
use winter_staking::position::StakedTokens;
use winter_staking::position::StakingError;

const WINTER: u64 = 7;
const SNOW: u64 = 8;
const MIN_STAKING_EPOCHS: u64 = 5;
const ALICE: u64 = 42;
const BOB: u64 = 99;

fn fresh_ledger() -> WinterStakingLedger {
    WinterStakingLedger::new(WINTER, SNOW, MIN_STAKING_EPOCHS)
}

#[test]
fn fresh_account_reads_as_zero() {
    let ledger = fresh_ledger();
    let pos = ledger.get_staked_tokens(ALICE);
    assert_eq!(pos, StakedTokens { amount: 0, lock_until_epoch: 0, last_claimed_epoch: 0 });
}

#[test]
fn stake_wrong_token_fails_and_leaves_position_unchanged() {
    let mut ledger = fresh_ledger();
    assert_eq!(ledger.stake_token_winter(ALICE, WINTER, 100, 10), Ok(()));
    let before = ledger.get_staked_tokens(ALICE);
    let r = ledger.stake_token_winter(ALICE, SNOW, 50, 11);
    assert_eq!(r, Err(StakingError::InvalidToken));
    assert_eq!(ledger.get_staked_tokens(ALICE), before);
}

#[test]
fn stake_zero_amount_fails_and_leaves_position_unchanged() {
    let mut ledger = fresh_ledger();
    assert_eq!(ledger.stake_token_winter(ALICE, WINTER, 100, 10), Ok(()));
    let before = ledger.get_staked_tokens(ALICE);
    let r = ledger.stake_token_winter(ALICE, WINTER, 0, 11);
    assert_eq!(r, Err(StakingError::InvalidAmount));
    assert_eq!(ledger.get_staked_tokens(ALICE), before);
}

#[test]
fn first_stake_sets_amount_lock_and_clock() {
    let mut ledger = fresh_ledger();
    let r = ledger.stake_token_winter(ALICE, WINTER, 100, 10);
    assert_eq!(r, Ok(()));
    let pos = ledger.get_staked_tokens(ALICE);
    assert_eq!(pos, StakedTokens { amount: 100, lock_until_epoch: 15, last_claimed_epoch: 10 });
}

#[test]
fn claim_in_stake_epoch_is_too_early() {
    let mut ledger = fresh_ledger();
    assert_eq!(ledger.stake_token_winter(ALICE, WINTER, 100, 10), Ok(()));
    let before = ledger.get_staked_tokens(ALICE);
    let r = ledger.claim_rewards(ALICE, 10);
    assert_eq!(r, Err(StakingError::ClaimTooEarly));
    assert_eq!(ledger.get_staked_tokens(ALICE), before);
}

#[test]
fn claim_one_epoch_later_pays_one_percent_and_resets_clock() {
    let mut ledger = fresh_ledger();
    assert_eq!(ledger.stake_token_winter(ALICE, WINTER, 100, 10), Ok(()));
    let r = ledger.claim_rewards(ALICE, 11);
    assert_eq!(r, Ok(RewardIssuance { to: ALICE, token_id: SNOW, amount: 1 }));
    let pos = ledger.get_staked_tokens(ALICE);
    assert_eq!(pos, StakedTokens { amount: 100, lock_until_epoch: 15, last_claimed_epoch: 11 });
}

#[test]
fn transfer_rewards_pays_recipient_and_updates_caller_position() {
    let mut claim_ledger = fresh_ledger();
    let mut transfer_ledger = fresh_ledger();
    assert_eq!(claim_ledger.stake_token_winter(ALICE, WINTER, 300, 10), Ok(()));
    assert_eq!(transfer_ledger.stake_token_winter(ALICE, WINTER, 300, 10), Ok(()));

    let claimed = claim_ledger.claim_rewards(ALICE, 11).unwrap();
    let transferred = transfer_ledger.transfer_rewards(ALICE, BOB, 11).unwrap();

    assert_eq!(transferred.to, BOB);
    assert_eq!(transferred.amount, claimed.amount);
    assert_eq!(transferred.token_id, claimed.token_id);
    assert_eq!(transferred.amount, 3);
    assert_eq!(
        transfer_ledger.get_staked_tokens(ALICE),
        claim_ledger.get_staked_tokens(ALICE)
    );
    assert_eq!(transfer_ledger.get_staked_tokens(BOB).amount, 0);
}

#[test]
fn transfer_rewards_too_early_fails_on_callers_clock() {
    let mut ledger = fresh_ledger();
    assert_eq!(ledger.stake_token_winter(ALICE, WINTER, 100, 10), Ok(()));
    let r = ledger.transfer_rewards(ALICE, BOB, 10);
    assert_eq!(r, Err(StakingError::ClaimTooEarly));
}

#[test]
fn consecutive_claims_do_not_compound() {
    let mut ledger = fresh_ledger();
    assert_eq!(ledger.stake_token_winter(ALICE, WINTER, 200, 10), Ok(()));
    let first = ledger.claim_rewards(ALICE, 11).unwrap();
    let second = ledger.claim_rewards(ALICE, 12).unwrap();
    assert_eq!(first.amount, 2);
    assert_eq!(second.amount, 2);
    let pos = ledger.get_staked_tokens(ALICE);
    assert_eq!(pos.amount, 200);
    assert_eq!(pos.last_claimed_epoch, 12);
}

#[test]
fn claim_after_many_epochs_still_pays_one_interval() {
    let mut ledger = fresh_ledger();
    assert_eq!(ledger.stake_token_winter(ALICE, WINTER, 500, 10), Ok(()));
    let r = ledger.claim_rewards(ALICE, 30).unwrap();
    assert_eq!(r.amount, 5);
    assert_eq!(ledger.get_staked_tokens(ALICE).last_claimed_epoch, 30);
}

#[test]
fn get_position_is_idempotent() {
    let mut ledger = fresh_ledger();
    assert_eq!(ledger.stake_token_winter(ALICE, WINTER, 100, 10), Ok(()));
    let first = ledger.get_staked_tokens(ALICE);
    let second = ledger.get_staked_tokens(ALICE);
    assert_eq!(first, second);
    let fresh_first = ledger.get_staked_tokens(BOB);
    let fresh_second = ledger.get_staked_tokens(BOB);
    assert_eq!(fresh_first, fresh_second);
}

#[test]
fn restaking_accumulates_and_resets_lock_and_clock() {
    let mut ledger = fresh_ledger();
    assert_eq!(ledger.stake_token_winter(ALICE, WINTER, 100, 10), Ok(()));
    assert_eq!(ledger.stake_token_winter(ALICE, WINTER, 50, 12), Ok(()));
    let pos = ledger.get_staked_tokens(ALICE);
    assert_eq!(pos, StakedTokens { amount: 150, lock_until_epoch: 17, last_claimed_epoch: 12 });
}

#[test]
fn restaking_discards_accrued_but_unclaimed_window() {
    let mut ledger = fresh_ledger();
    assert_eq!(ledger.stake_token_winter(ALICE, WINTER, 100, 10), Ok(()));
    // Epoch 11 would have been claimable, but a second stake resets the clock.
    assert_eq!(ledger.stake_token_winter(ALICE, WINTER, 1, 11), Ok(()));
    assert_eq!(ledger.claim_rewards(ALICE, 11), Err(StakingError::ClaimTooEarly));
    assert_eq!(ledger.claim_rewards(ALICE, 12).unwrap().amount, 1);
}

#[test]
fn reward_rounds_down() {
    let mut ledger = fresh_ledger();
    assert_eq!(ledger.stake_token_winter(ALICE, WINTER, 199, 10), Ok(()));
    assert_eq!(ledger.claim_rewards(ALICE, 11).unwrap().amount, 1);

    let mut small = fresh_ledger();
    assert_eq!(small.stake_token_winter(BOB, WINTER, 99, 10), Ok(()));
    assert_eq!(small.claim_rewards(BOB, 11).unwrap().amount, 0);
}

#[test]
fn claim_on_never_staked_account_pays_nothing() {
    let mut ledger = fresh_ledger();
    let r = ledger.claim_rewards(ALICE, 1);
    assert_eq!(r, Ok(RewardIssuance { to: ALICE, token_id: SNOW, amount: 0 }));
    let pos = ledger.get_staked_tokens(ALICE);
    assert_eq!(pos, StakedTokens { amount: 0, lock_until_epoch: 0, last_claimed_epoch: 1 });
}

#[test]
fn operations_on_one_account_leave_others_unchanged() {
    let mut ledger = fresh_ledger();
    assert_eq!(ledger.stake_token_winter(ALICE, WINTER, 100, 10), Ok(()));
    assert_eq!(ledger.stake_token_winter(BOB, WINTER, 40, 10), Ok(()));
    let bob_before = ledger.get_staked_tokens(BOB);
    assert_eq!(ledger.stake_token_winter(ALICE, WINTER, 1, 11), Ok(()));
    ledger.claim_rewards(ALICE, 12).unwrap();
    assert_eq!(ledger.get_staked_tokens(BOB), bob_before);
}

#[test]
fn zero_position_constructor_matches_fresh_read() {
    let ledger = fresh_ledger();
    assert_eq!(StakedTokens::zero(), ledger.get_staked_tokens(ALICE));
}
