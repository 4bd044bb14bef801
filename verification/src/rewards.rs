use vstd::prelude::*;

use vstd::arithmetic::div_mod::{lemma_div_is_ordered, lemma_div_multiples_vanish};
use vstd::arithmetic::mul::lemma_mul_inequality;

use crate::errors::StakingError;
use crate::state::{PoolState, StakeInfo, SECONDS_PER_DAY};

verus! {

/// The tier multiplier (parts per hundred) the pool grants a rarity tier.
/// An out-of-range tier falls back to the Common multiplier; that fallback
/// is documented behaviour, not an error.
pub open spec fn tier_multiplier_of(pool: PoolState, tier: u8) -> u64 {
    if tier == 0 {
        pool.common_multiplier
    } else if tier == 1 {
        pool.rare_multiplier
    } else if tier == 2 {
        pool.epic_multiplier
    } else if tier == 3 {
        pool.legendary_multiplier
    } else {
        pool.common_multiplier
    }
}

/// Reward owed per whole staked day before position-specific scaling:
/// the pool rate scaled by the tier multiplier, with floor division.
pub open spec fn base_daily_reward_of(pool: PoolState, tier: u8) -> int {
    pool.reward_rate * tier_multiplier_of(pool, tier) / 100
}

/// Whether computing the base daily reward overflows the checked u64 step.
pub open spec fn base_daily_overflows(pool: PoolState, tier: u8) -> bool {
    pool.reward_rate * tier_multiplier_of(pool, tier) > u64::MAX
}

/// Base daily reward after the duration-based multiplier, a basis-point
/// scaling with floor division.
pub open spec fn time_scaled_reward_of(s: StakeInfo, pool: PoolState) -> int {
    base_daily_reward_of(pool, s.tier) * (10000 + s.current_time_multiplier) / 10000
}

/// Daily reward after both the duration-based and the compound-streak
/// multipliers, each a basis-point scaling with floor division.
pub open spec fn scaled_daily_reward_of(s: StakeInfo, pool: PoolState) -> int {
    time_scaled_reward_of(s, pool) * (10000 + s.compound_streak_multiplier) / 10000
}

/// Whether any checked step of the daily-reward scaling overflows u64.
pub open spec fn scaled_daily_overflows(s: StakeInfo, pool: PoolState) -> bool {
    ||| base_daily_overflows(pool, s.tier)
    ||| 10000 + s.current_time_multiplier > u64::MAX
    ||| base_daily_reward_of(pool, s.tier) * (10000 + s.current_time_multiplier) > u64::MAX
    ||| 10000 + s.compound_streak_multiplier > u64::MAX
    ||| time_scaled_reward_of(s, pool) * (10000 + s.compound_streak_multiplier) > u64::MAX
}

/// The reward owed for `elapsed` seconds of accrual: the scaled daily
/// reward for each whole elapsed day, plus the same rate prorated over the
/// remaining fraction of a day, truncated to an integer.
pub open spec fn reward_amount_of(s: StakeInfo, pool: PoolState, elapsed: int) -> int {
    let daily = scaled_daily_reward_of(s, pool);
    daily * (elapsed / (SECONDS_PER_DAY as int)) + daily * (elapsed % (SECONDS_PER_DAY as int))
        / (SECONDS_PER_DAY as int)
}

/// Whether any checked step of the whole reward computation overflows u64.
pub open spec fn reward_overflows(s: StakeInfo, pool: PoolState, elapsed: int) -> bool {
    ||| scaled_daily_overflows(s, pool)
    ||| scaled_daily_reward_of(s, pool) * (elapsed / (SECONDS_PER_DAY as int)) > u64::MAX
    ||| reward_amount_of(s, pool, elapsed) > u64::MAX
}

/// Picks the pool's tier multiplier for a rarity tier, falling back to the
/// Common multiplier for an out-of-range tier.
pub fn tier_multiplier(pool_state: &PoolState, tier: u8) -> (m: u64)
    ensures
        m == tier_multiplier_of(*pool_state, tier),
{
    if tier == 0 {
        pool_state.common_multiplier
    } else if tier == 1 {
        pool_state.rare_multiplier
    } else if tier == 2 {
        pool_state.epic_multiplier
    } else if tier == 3 {
        pool_state.legendary_multiplier
    } else {
        pool_state.common_multiplier
    }
}

/// Reward per whole staked day for a tier: pool rate times tier multiplier
/// over 100, or `ArithmeticError` when the product overflows.
pub fn base_daily_reward(pool_state: &PoolState, tier: u8) -> (r: Result<u64, StakingError>)
    ensures
        base_daily_overflows(*pool_state, tier) ==> r == Err::<u64, StakingError>(
            StakingError::ArithmeticError,
        ),
        !base_daily_overflows(*pool_state, tier) ==> r == Ok::<u64, StakingError>(
            base_daily_reward_of(*pool_state, tier) as u64,
        ),
{
    let multiplier = tier_multiplier(pool_state, tier);
    match pool_state.reward_rate.checked_mul(multiplier) {
        Some(product) => Ok(product / 100),
        None => Err(StakingError::ArithmeticError),
    }
}

/// Computes the reward a position has earned since its accrual anchor
/// `last_claim_time`.
///
/// The reward is never negative, and it is zero whenever no time has
/// elapsed since the anchor. Whole elapsed days earn the scaled daily rate;
/// the remaining fraction of a day earns the same rate prorated by elapsed
/// seconds, truncated. Any overflow in a checked step surfaces as
/// `ArithmeticError`.
pub fn calculate_rewards(stake_info: &StakeInfo, pool_state: &PoolState, current_time: i64) -> (result:
    Result<u64, StakingError>)
    ensures
        ({
            let elapsed = current_time - stake_info.last_claim_time;
            if elapsed < i64::MIN || elapsed > i64::MAX {
                result == Err::<u64, StakingError>(StakingError::ArithmeticError)
            } else if elapsed <= 0 {
                result == Ok::<u64, StakingError>(0u64)
            } else if reward_overflows(*stake_info, *pool_state, elapsed) {
                result == Err::<u64, StakingError>(StakingError::ArithmeticError)
            } else {
                result == Ok::<u64, StakingError>(
                    reward_amount_of(*stake_info, *pool_state, elapsed) as u64,
                )
            }
        }),
        result matches Ok(amount) ==> amount >= 0,
        (current_time <= stake_info.last_claim_time && current_time - stake_info.last_claim_time
            >= i64::MIN) ==> result == Ok::<u64, StakingError>(0u64),
{
    let elapsed: i64 = match current_time.checked_sub(stake_info.last_claim_time) {
        Some(e) => e,
        None => {
            return Err(StakingError::ArithmeticError);
        },
    };
    if elapsed <= 0 {
        return Ok(0);
    }
    let elapsed_seconds: u64 = elapsed as u64;
    let elapsed_days: u64 = elapsed_seconds / SECONDS_PER_DAY;
    let remainder_seconds: u64 = elapsed_seconds % SECONDS_PER_DAY;

    let base_daily: u64 = match base_daily_reward(pool_state, stake_info.tier) {
        Ok(b) => b,
        Err(e) => {
            return Err(e);
        },
    };

    let time_factor: u64 = match 10000u64.checked_add(stake_info.current_time_multiplier) {
        Some(f) => f,
        None => {
            return Err(StakingError::ArithmeticError);
        },
    };
    let with_time_multiplier: u64 = match base_daily.checked_mul(time_factor) {
        Some(p) => p / 10000,
        None => {
            return Err(StakingError::ArithmeticError);
        },
    };

    let streak_factor: u64 = match 10000u64.checked_add(stake_info.compound_streak_multiplier) {
        Some(f) => f,
        None => {
            return Err(StakingError::ArithmeticError);
        },
    };
    let scaled_daily: u64 = match with_time_multiplier.checked_mul(streak_factor) {
        Some(p) => p / 10000,
        None => {
            return Err(StakingError::ArithmeticError);
        },
    };

    let full_days_reward: u64 = match scaled_daily.checked_mul(elapsed_days) {
        Some(p) => p,
        None => {
            return Err(StakingError::ArithmeticError);
        },
    };

    proof {
        lemma_mul_inequality(
            remainder_seconds as int,
            SECONDS_PER_DAY as int,
            scaled_daily as int,
        );
        lemma_mul_inequality(scaled_daily as int, u64::MAX as int, SECONDS_PER_DAY as int);
        lemma_div_is_ordered(
            remainder_seconds as int * scaled_daily as int,
            SECONDS_PER_DAY as int * scaled_daily as int,
            SECONDS_PER_DAY as int,
        );
        lemma_div_multiples_vanish(scaled_daily as int, SECONDS_PER_DAY as int);
    }
    let fractional_wide: u128 = (scaled_daily as u128) * (remainder_seconds as u128)
        / (SECONDS_PER_DAY as u128);
    let fractional_reward: u64 = fractional_wide as u64;

    match full_days_reward.checked_add(fractional_reward) {
        Some(total) => Ok(total),
        None => Err(StakingError::ArithmeticError),
    }
}

} // verus!
