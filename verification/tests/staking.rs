use nft_staking_enhanced::collection::update_collection_bonus;
use nft_staking_enhanced::compound::{process_auto_compound, set_compound_frequency};
use nft_staking_enhanced::errors::StakingError;
use nft_staking_enhanced::lifecycle::{emergency_unstake_nft, stake_nft};
use nft_staking_enhanced::multiplier::update_time_multiplier;
use nft_staking_enhanced::rewards::calculate_rewards;
use nft_staking_enhanced::state::{PoolState, StakeInfo, UserStakingInfo};

const DAY: i64 = 86400;

fn test_pool() -> PoolState {
    PoolState {
        admin: 1,
        reward_rate: 100,
        emergency_fee_percent: 0,
        paused: false,
        total_staked: 0,
        common_multiplier: 100,
        rare_multiplier: 150,
        epic_multiplier: 200,
        legendary_multiplier: 300,
        long_staking_bonus: 0,
        max_nfts_per_user: 10,
        time_multiplier_increment: 500,
        time_multiplier_period_days: 30,
        max_time_multiplier: 5000,
    }
}

fn staked_position(tier: u8, period_days: u64, auto_compound: bool) -> StakeInfo {
    StakeInfo {
        owner: 7,
        mint: 9,
        staked_at: 0,
        release_date: period_days as i64 * DAY,
        is_staked: true,
        tier,
        last_claim_time: 0,
        staking_period: period_days,
        accumulated_compound: 0,
        current_time_multiplier: 0,
        last_multiplier_update: 0,
        milestones_achieved: vec![false, false, false, false],
        next_milestone_days: 30,
        compound_frequency: if auto_compound { 0 } else { 255 },
        last_compound_time: 0,
        compound_streak: 0,
        compound_streak_multiplier: 0,
    }
}

fn user_with_staked(count: u8, bonus: u64) -> UserStakingInfo {
    let mut mints: Vec<u64> = Vec::new();
    for i in 0..count {
        mints.push(100 + i as u64);
    }
    UserStakingInfo { owner: 7, staked_count: count, staked_mints: mints, collection_bonus: bonus }
}

// ---- reward calculation ----

#[test]
fn reward_is_zero_when_no_time_elapsed() {
    let pool = test_pool();
    let mut position = staked_position(0, 100, false);
    position.last_claim_time = 1000;
    assert_eq!(calculate_rewards(&position, &pool, 1000), Ok(0));
    assert_eq!(calculate_rewards(&position, &pool, 500), Ok(0));
}

#[test]
fn reward_two_whole_days_at_base_rate() {
    let pool = test_pool();
    let position = staked_position(0, 100, false);
    assert_eq!(calculate_rewards(&position, &pool, 2 * DAY), Ok(200));
}

#[test]
fn reward_fractional_day_truncates() {
    let pool = test_pool();
    let position = staked_position(0, 100, false);
    // one and a half days at 100 per day
    assert_eq!(calculate_rewards(&position, &pool, DAY + DAY / 2), Ok(150));
    // a third of a day: 100 * 28800 / 86400 = 33, truncated
    assert_eq!(calculate_rewards(&position, &pool, 28800), Ok(33));
}

#[test]
fn reward_applies_tier_time_and_streak_multipliers() {
    let pool = test_pool();
    let mut position = staked_position(1, 100, false);
    // Rare tier: 100 * 150 / 100 = 150 per day
    assert_eq!(calculate_rewards(&position, &pool, DAY), Ok(150));
    // +50% time multiplier: 150 * 15000 / 10000 = 225 per day
    position.current_time_multiplier = 5000;
    assert_eq!(calculate_rewards(&position, &pool, DAY), Ok(225));
    // +10% streak multiplier on top: 225 * 11000 / 10000 = 247 per day
    position.compound_streak_multiplier = 1000;
    assert_eq!(calculate_rewards(&position, &pool, DAY), Ok(247));
}

#[test]
fn reward_unknown_tier_falls_back_to_common() {
    let pool = test_pool();
    let position = staked_position(9, 100, false);
    assert_eq!(calculate_rewards(&position, &pool, DAY), Ok(100));
}

#[test]
fn reward_overflow_reports_arithmetic_error() {
    let mut pool = test_pool();
    pool.reward_rate = u64::MAX;
    pool.common_multiplier = 200;
    let position = staked_position(0, 100, false);
    assert_eq!(
        calculate_rewards(&position, &pool, DAY),
        Err(StakingError::ArithmeticError)
    );
}

// ---- time multiplier ----

#[test]
fn time_multiplier_grows_with_completed_periods() {
    let pool = test_pool();
    let mut position = staked_position(0, 400, false);
    let outcome = update_time_multiplier(&mut position, &pool, 29 * DAY).unwrap();
    assert!(outcome.updated.is_none());
    assert_eq!(position.current_time_multiplier, 0);

    let outcome = update_time_multiplier(&mut position, &pool, 95 * DAY).unwrap();
    let updated = outcome.updated.unwrap();
    assert_eq!(updated.old_multiplier, 0);
    assert_eq!(updated.new_multiplier, 1500);
    assert_eq!(updated.days_staked, 95);
    assert_eq!(position.current_time_multiplier, 1500);
    assert_eq!(position.last_multiplier_update, 95 * DAY);
}

#[test]
fn time_multiplier_never_exceeds_cap() {
    let pool = test_pool();
    let mut position = staked_position(0, 2000, false);
    // 360 days -> 12 periods -> raw 6000, capped at 5000
    let outcome = update_time_multiplier(&mut position, &pool, 360 * DAY).unwrap();
    assert_eq!(outcome.updated.unwrap().new_multiplier, 5000);
    assert_eq!(position.current_time_multiplier, 5000);
    // later call cannot lower or raise it further
    let outcome = update_time_multiplier(&mut position, &pool, 720 * DAY).unwrap();
    assert!(outcome.updated.is_none());
    assert_eq!(position.current_time_multiplier, 5000);
}

#[test]
fn time_multiplier_is_monotonic_over_successive_calls() {
    let pool = test_pool();
    let mut position = staked_position(0, 2000, false);
    let mut last = 0;
    for days in [10, 31, 31, 65, 120, 121, 500] {
        update_time_multiplier(&mut position, &pool, days * DAY).unwrap();
        assert!(position.current_time_multiplier >= last);
        assert!(position.current_time_multiplier <= pool.max_time_multiplier);
        last = position.current_time_multiplier;
    }
}

#[test]
fn time_multiplier_rejects_unstaked_and_paused() {
    let mut pool = test_pool();
    let mut position = staked_position(0, 100, false);
    position.is_staked = false;
    assert_eq!(
        update_time_multiplier(&mut position, &pool, DAY).unwrap_err(),
        StakingError::NotStaked
    );
    position.is_staked = true;
    pool.paused = true;
    assert_eq!(
        update_time_multiplier(&mut position, &pool, DAY).unwrap_err(),
        StakingError::PoolPaused
    );
    assert_eq!(position.current_time_multiplier, 0);
}

// ---- milestones ----

#[test]
fn milestones_multiple_thresholds_in_one_pass() {
    let pool = test_pool();
    let mut position = staked_position(0, 400, true);
    // day 100 crosses 30 and 90 at once
    let outcome = update_time_multiplier(&mut position, &pool, 100 * DAY).unwrap();
    assert_eq!(outcome.milestones.len(), 2);
    // 5% of 30 days of base 100, then 10%
    assert_eq!(outcome.milestones[0].milestone_type, 0);
    assert_eq!(outcome.milestones[0].reward_amount, 150);
    assert_eq!(outcome.milestones[1].milestone_type, 1);
    assert_eq!(outcome.milestones[1].reward_amount, 300);
    assert_eq!(position.milestones_achieved, vec![true, true, false, false]);
    assert_eq!(position.accumulated_compound, 450);
    assert_eq!(position.next_milestone_days, 180);
}

#[test]
fn milestones_without_auto_compound_are_reported_only() {
    let pool = test_pool();
    let mut position = staked_position(0, 400, false);
    let outcome = update_time_multiplier(&mut position, &pool, 35 * DAY).unwrap();
    assert_eq!(outcome.milestones.len(), 1);
    assert_eq!(outcome.milestones[0].reward_amount, 150);
    assert_eq!(position.accumulated_compound, 0);
    assert_eq!(position.milestones_achieved, vec![true, false, false, false]);
    assert_eq!(position.next_milestone_days, 90);
}

#[test]
fn milestone_flags_stay_set() {
    let pool = test_pool();
    let mut position = staked_position(0, 400, true);
    position.milestones_achieved = vec![true, false, false, false];
    let outcome = update_time_multiplier(&mut position, &pool, 100 * DAY).unwrap();
    // only the 90-day milestone is newly granted; the set flag stays set
    assert_eq!(outcome.milestones.len(), 1);
    assert_eq!(outcome.milestones[0].milestone_type, 1);
    assert_eq!(position.milestones_achieved, vec![true, true, false, false]);
}

// ---- compounding ----

#[test]
fn compound_folds_reward_and_advances_streak() {
    let pool = test_pool();
    let mut position = staked_position(0, 400, true);
    let outcome = process_auto_compound(&mut position, &pool, DAY).unwrap();
    assert_eq!(outcome.compounded.amount, 100);
    assert_eq!(outcome.compounded.new_total, 100);
    assert_eq!(position.accumulated_compound, 100);
    assert_eq!(position.last_compound_time, DAY);
    assert_eq!(position.compound_streak, 1);
    assert_eq!(position.compound_streak_multiplier, 0);
    assert!(outcome.streak.is_none());
    // the accrual anchor is deliberately left in place
    assert_eq!(position.last_claim_time, 0);
}

#[test]
fn compound_streak_bonus_steps_every_five() {
    let pool = test_pool();
    let mut position = staked_position(0, 400, true);
    position.compound_streak = 4;
    let outcome = process_auto_compound(&mut position, &pool, DAY).unwrap();
    assert_eq!(position.compound_streak, 5);
    assert_eq!(position.compound_streak_multiplier, 100);
    let streak_event = outcome.streak.unwrap();
    assert_eq!(streak_event.new_streak, 5);
    assert_eq!(streak_event.new_multiplier, 100);
}

#[test]
fn compound_streak_bonus_caps_at_ten_percent() {
    let pool = test_pool();
    let mut position = staked_position(0, 400, true);
    position.compound_streak = 54;
    position.compound_streak_multiplier = 1000;
    let outcome = process_auto_compound(&mut position, &pool, DAY).unwrap();
    assert_eq!(position.compound_streak, 55);
    assert_eq!(position.compound_streak_multiplier, 1000);
    assert!(outcome.streak.is_none());
}

#[test]
fn compound_respects_frequency_intervals() {
    let pool = test_pool();
    let mut position = staked_position(0, 400, true);
    position.compound_frequency = 1; // weekly
    position.last_compound_time = 0;
    assert_eq!(
        process_auto_compound(&mut position, &pool, 6 * DAY).unwrap_err(),
        StakingError::CompoundTooEarly
    );
    assert_eq!(position.compound_streak, 0);
    assert!(process_auto_compound(&mut position, &pool, 7 * DAY).is_ok());
}

#[test]
fn compound_rejects_bad_states() {
    let mut pool = test_pool();
    let mut position = staked_position(0, 400, true);
    position.is_staked = false;
    assert_eq!(
        process_auto_compound(&mut position, &pool, DAY).unwrap_err(),
        StakingError::NotStaked
    );
    position.is_staked = true;
    pool.paused = true;
    assert_eq!(
        process_auto_compound(&mut position, &pool, DAY).unwrap_err(),
        StakingError::PoolPaused
    );
    pool.paused = false;
    position.compound_frequency = 255;
    assert_eq!(
        process_auto_compound(&mut position, &pool, DAY).unwrap_err(),
        StakingError::AutoCompoundNotEnabled
    );
    position.compound_frequency = 7;
    assert_eq!(
        process_auto_compound(&mut position, &pool, DAY).unwrap_err(),
        StakingError::InvalidCompoundFrequency
    );
    assert_eq!(position.accumulated_compound, 0);
    assert_eq!(position.compound_streak, 0);
}

#[test]
fn switching_schedules_redefines_auto_compounding() {
    let pool = test_pool();
    // staked manually: compounding is disabled until a schedule is chosen
    let mut position = StakeInfo::new(7, 9);
    let mut user = user_with_staked(0, 0);
    stake_nft(&mut position, &mut user, &pool, 7, 9, 400, 0, false, 0).unwrap();
    assert_eq!(
        process_auto_compound(&mut position, &pool, DAY).unwrap_err(),
        StakingError::AutoCompoundNotEnabled
    );
    set_compound_frequency(&mut position, 0, 0).unwrap();
    let outcome = process_auto_compound(&mut position, &pool, DAY).unwrap();
    assert_eq!(outcome.compounded.amount, 100);
    assert_eq!(position.compound_streak, 1);
    // back to manual: compounding is disabled again
    set_compound_frequency(&mut position, 255, DAY).unwrap();
    assert_eq!(
        process_auto_compound(&mut position, &pool, 2 * DAY).unwrap_err(),
        StakingError::AutoCompoundNotEnabled
    );
}

#[test]
fn milestones_after_switch_to_manual_are_reported_only() {
    let pool = test_pool();
    let mut position = StakeInfo::new(7, 9);
    let mut user = user_with_staked(0, 0);
    stake_nft(&mut position, &mut user, &pool, 7, 9, 400, 0, true, 0).unwrap();
    set_compound_frequency(&mut position, 255, 0).unwrap();
    let outcome = update_time_multiplier(&mut position, &pool, 35 * DAY).unwrap();
    assert_eq!(outcome.milestones.len(), 1);
    assert_eq!(outcome.milestones[0].reward_amount, 150);
    assert_eq!(position.accumulated_compound, 0);
    assert_eq!(position.milestones_achieved, vec![true, false, false, false]);
}

#[test]
fn compound_overflow_leaves_state_untouched() {
    let pool = test_pool();
    let mut position = staked_position(0, 400, true);
    position.accumulated_compound = u64::MAX;
    assert_eq!(
        process_auto_compound(&mut position, &pool, DAY).unwrap_err(),
        StakingError::ArithmeticError
    );
    assert_eq!(position.accumulated_compound, u64::MAX);
    assert_eq!(position.compound_streak, 0);
    assert_eq!(position.last_compound_time, 0);
}

// ---- compound frequency ----

#[test]
fn switching_to_manual_resets_streak() {
    let mut position = staked_position(0, 400, true);
    position.compound_streak = 12;
    position.compound_streak_multiplier = 200;
    let event = set_compound_frequency(&mut position, 255, 50 * DAY).unwrap();
    assert_eq!(event.old_frequency, 0);
    assert_eq!(event.new_frequency, 255);
    assert_eq!(position.compound_frequency, 255);
    assert_eq!(position.compound_streak, 0);
    assert_eq!(position.compound_streak_multiplier, 0);
}

#[test]
fn switching_between_auto_frequencies_keeps_streak() {
    let mut position = staked_position(0, 400, true);
    position.compound_streak = 12;
    position.compound_streak_multiplier = 200;
    set_compound_frequency(&mut position, 2, 50 * DAY).unwrap();
    assert_eq!(position.compound_frequency, 2);
    assert_eq!(position.compound_streak, 12);
    assert_eq!(position.compound_streak_multiplier, 200);
}

#[test]
fn unknown_frequency_code_is_rejected() {
    let mut position = staked_position(0, 400, true);
    assert_eq!(
        set_compound_frequency(&mut position, 7, DAY).unwrap_err(),
        StakingError::InvalidCompoundFrequency
    );
    assert_eq!(position.compound_frequency, 0);
}

// ---- collection bonus ----

#[test]
fn collection_bonus_follows_count_bands() {
    let cases: [(u8, u64); 10] = [
        (0, 0),
        (2, 0),
        (3, 500),
        (5, 500),
        (6, 1000),
        (10, 1000),
        (11, 1500),
        (20, 1500),
        (21, 2000),
        (200, 2000),
    ];
    for (count, expected) in cases {
        let mut user = user_with_staked(count, 12345);
        update_collection_bonus(&mut user);
        assert_eq!(user.collection_bonus, expected);
    }
}

#[test]
fn collection_bonus_change_is_flagged() {
    let mut user = user_with_staked(2, 0);
    assert!(!update_collection_bonus(&mut user));
    user.staked_count = 3;
    assert!(update_collection_bonus(&mut user));
    assert_eq!(user.collection_bonus, 500);
    user.staked_count = 6;
    assert!(update_collection_bonus(&mut user));
    assert_eq!(user.collection_bonus, 1000);
    assert!(!update_collection_bonus(&mut user));
}

// ---- staking ----

#[test]
fn stake_initializes_every_field() {
    let pool = test_pool();
    let mut position = StakeInfo::new(7, 9);
    let mut user = user_with_staked(0, 0);
    let now = 1_000_000;
    let outcome = stake_nft(&mut position, &mut user, &pool, 7, 9, 100, 2, true, now).unwrap();
    assert_eq!(position.owner, 7);
    assert_eq!(position.mint, 9);
    assert_eq!(position.staked_at, now);
    assert_eq!(position.release_date, now + 100 * DAY);
    assert!(position.is_staked);
    assert_eq!(position.tier, 2);
    assert_eq!(position.last_claim_time, now);
    assert_eq!(position.staking_period, 100);
    assert_eq!(position.accumulated_compound, 0);
    assert_eq!(position.current_time_multiplier, 0);
    assert_eq!(position.last_multiplier_update, now);
    assert_eq!(position.milestones_achieved, vec![false, false, false, false]);
    assert_eq!(position.next_milestone_days, 30);
    assert_eq!(position.compound_frequency, 0);
    assert_eq!(position.last_compound_time, now);
    assert_eq!(position.compound_streak, 0);
    assert_eq!(position.compound_streak_multiplier, 0);
    assert_eq!(user.staked_count, 1);
    assert_eq!(user.staked_mints, vec![9]);
    assert_eq!(outcome.staked.tier, 2);
    assert_eq!(outcome.staked.staking_period, 100);
    assert!(outcome.collection.is_none());
}

#[test]
fn stake_without_auto_compound_defaults_to_manual() {
    let pool = test_pool();
    let mut position = StakeInfo::new(7, 9);
    let mut user = user_with_staked(0, 0);
    stake_nft(&mut position, &mut user, &pool, 7, 9, 30, 0, false, 0).unwrap();
    assert_eq!(position.compound_frequency, 255);
}

#[test]
fn third_stake_moves_collection_bonus_band() {
    let pool = test_pool();
    let mut position = StakeInfo::new(7, 9);
    let mut user = user_with_staked(2, 0);
    let outcome = stake_nft(&mut position, &mut user, &pool, 7, 9, 100, 0, false, 0).unwrap();
    assert_eq!(user.staked_count, 3);
    assert_eq!(user.collection_bonus, 500);
    let bonus_event = outcome.collection.unwrap();
    assert_eq!(bonus_event.staked_count, 3);
    assert_eq!(bonus_event.new_bonus, 500);
}

#[test]
fn stake_validates_inputs_in_order() {
    let mut pool = test_pool();
    let mut position = StakeInfo::new(7, 9);
    let mut user = user_with_staked(0, 0);
    pool.paused = true;
    assert_eq!(
        stake_nft(&mut position, &mut user, &pool, 7, 9, 100, 0, false, 0).unwrap_err(),
        StakingError::PoolPaused
    );
    pool.paused = false;
    assert_eq!(
        stake_nft(&mut position, &mut user, &pool, 7, 9, 100, 4, false, 0).unwrap_err(),
        StakingError::InvalidNftTier
    );
    assert_eq!(
        stake_nft(&mut position, &mut user, &pool, 7, 9, 0, 3, false, 0).unwrap_err(),
        StakingError::InvalidStakingPeriod
    );
    let mut full_user = user_with_staked(10, 1000);
    assert_eq!(
        stake_nft(&mut position, &mut full_user, &pool, 7, 9, 100, 3, false, 0).unwrap_err(),
        StakingError::MaxNftsExceeded
    );
    assert!(!position.is_staked);
    assert_eq!(user.staked_count, 0);
}

// ---- emergency unstake ----

#[test]
fn emergency_unstake_quarter_way_pays_half() {
    let mut pool = test_pool();
    pool.reward_rate = 40;
    let mut position = staked_position(0, 100, false);
    let mut user = user_with_staked(0, 0);
    user.staked_mints.push(9);
    user.staked_count = 1;
    let outcome = emergency_unstake_nft(&mut position, &mut user, &pool, 25 * DAY).unwrap();
    assert_eq!(outcome.unstaked.earned_rewards, 1000);
    assert_eq!(outcome.unstaked.penalty_amount, 500);
    assert_eq!(outcome.unstaked.final_rewards, 500);
    assert_eq!(outcome.unstaked.progress_percentage, 25);
    assert!(!position.is_staked);
    assert_eq!(user.staked_count, 0);
    assert!(user.staked_mints.is_empty());
    assert_eq!(user.collection_bonus, 0);
}

#[test]
fn emergency_penalty_boundaries() {
    // one percent of progress per staked day; reward rate 1 earns 100
    // over the fixed 100-day accrual window, so the penalty equals the
    // penalty percentage
    let cases: [(i64, u64); 6] = [(29, 50), (30, 30), (59, 30), (60, 15), (89, 15), (90, 5)];
    for (progress_days, expected_penalty) in cases {
        let mut pool = test_pool();
        pool.reward_rate = 1;
        let now = 200 * DAY;
        let mut position = staked_position(0, 100, false);
        position.staked_at = now - progress_days * DAY;
        position.last_claim_time = now - 100 * DAY;
        let mut user = user_with_staked(0, 0);
        user.staked_mints.push(9);
        user.staked_count = 1;
        let outcome = emergency_unstake_nft(&mut position, &mut user, &pool, now).unwrap();
        assert_eq!(outcome.unstaked.earned_rewards, 100);
        assert_eq!(outcome.unstaked.penalty_amount, expected_penalty);
        assert_eq!(outcome.unstaked.final_rewards, 100 - expected_penalty);
        assert_eq!(outcome.unstaked.progress_percentage, progress_days as u8);
    }
}

#[test]
fn emergency_unstake_removes_first_matching_mint() {
    let pool = test_pool();
    let mut position = staked_position(0, 100, false);
    let mut user = user_with_staked(0, 0);
    user.staked_mints = vec![5, 9, 9];
    user.staked_count = 3;
    user.collection_bonus = 500;
    let outcome = emergency_unstake_nft(&mut position, &mut user, &pool, 10 * DAY).unwrap();
    assert_eq!(user.staked_mints, vec![5, 9]);
    assert_eq!(user.staked_count, 2);
    assert_eq!(user.collection_bonus, 0);
    let bonus_event = outcome.collection.unwrap();
    assert_eq!(bonus_event.staked_count, 2);
    assert_eq!(bonus_event.new_bonus, 0);
}

#[test]
fn full_lifecycle_interplay() {
    let pool = test_pool();
    let mut position = StakeInfo::new(7, 9);
    let mut user = user_with_staked(0, 0);
    stake_nft(&mut position, &mut user, &pool, 7, 9, 200, 0, true, 0).unwrap();

    // day 95: three 30-day periods -> +15%, milestones 30 and 90 granted
    let outcome = update_time_multiplier(&mut position, &pool, 95 * DAY).unwrap();
    assert_eq!(outcome.updated.unwrap().new_multiplier, 1500);
    assert_eq!(outcome.milestones.len(), 2);
    assert_eq!(position.accumulated_compound, 450);
    assert_eq!(position.next_milestone_days, 180);

    // day 95: compound 95 days at 115 per day (base 100 scaled by +15%)
    let outcome = process_auto_compound(&mut position, &pool, 95 * DAY).unwrap();
    assert_eq!(outcome.compounded.amount, 10925);
    assert_eq!(position.accumulated_compound, 11375);
    assert_eq!(position.compound_streak, 1);

    // day 96: 48% through the 200-day period -> 30% penalty; the accrual
    // anchor never moved, so the payout covers all 96 days at 115 per day
    let outcome = emergency_unstake_nft(&mut position, &mut user, &pool, 96 * DAY).unwrap();
    assert_eq!(outcome.unstaked.progress_percentage, 48);
    assert_eq!(outcome.unstaked.earned_rewards, 11040);
    assert_eq!(outcome.unstaked.penalty_amount, 3312);
    assert_eq!(outcome.unstaked.final_rewards, 7728);
    assert!(!position.is_staked);
    assert_eq!(user.staked_count, 0);
}

#[test]
fn emergency_unstake_rejects_bad_states() {
    let mut pool = test_pool();
    let mut position = staked_position(0, 100, false);
    let mut user = user_with_staked(1, 0);
    position.is_staked = false;
    assert_eq!(
        emergency_unstake_nft(&mut position, &mut user, &pool, DAY).unwrap_err(),
        StakingError::NotStaked
    );
    position.is_staked = true;
    pool.paused = true;
    assert_eq!(
        emergency_unstake_nft(&mut position, &mut user, &pool, DAY).unwrap_err(),
        StakingError::PoolPaused
    );
    assert!(position.is_staked);
    assert_eq!(user.staked_count, 1);
}
