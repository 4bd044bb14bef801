use vstd::prelude::*;

use crate::errors::StakingError;
use crate::events::{AutoCompoundOutcome, CompoundFrequencyChanged, CompoundStreakIncreased,
    RewardsCompounded};
use crate::rewards::{calculate_rewards, reward_amount_of, reward_overflows};
use crate::state::{PoolState, StakeInfo};

verus! {

/// Whether a frequency code names an automatic compounding schedule:
/// 0 = daily, 1 = weekly, 2 = monthly.
pub open spec fn is_auto_frequency(frequency: u8) -> bool {
    frequency == 0 || frequency == 1 || frequency == 2
}

/// Seconds that must pass between two compounds under an automatic
/// frequency code.
pub open spec fn compound_interval_of(frequency: u8) -> int {
    if frequency == 0 {
        86400
    } else if frequency == 1 {
        604800
    } else if frequency == 2 {
        2592000
    } else {
        0
    }
}

/// The compound streak after one more on-time compound: it grows by one and
/// saturates at the u16 ceiling.
pub open spec fn next_streak_of(streak: u16) -> u16 {
    if streak == 65535 {
        65535u16
    } else {
        (streak + 1) as u16
    }
}

/// The streak bonus owed for a streak, in basis points: 100 for every five
/// consecutive compounds, capped at 1000.
pub open spec fn streak_multiplier_of(streak: u16) -> int {
    if (streak / 5) * 100 < 1000 {
        (streak / 5) * 100
    } else {
        1000
    }
}

/// Tests whether a frequency code names an automatic compounding schedule.
pub fn is_auto_compounding(frequency: u8) -> (b: bool)
    ensures
        b == is_auto_frequency(frequency),
{
    frequency == 0 || frequency == 1 || frequency == 2
}

/// Law: the stored streak bonus is exactly the band function of the stored
/// streak. Every successful compound re-establishes this, switching the
/// schedule preserves it, and a fresh stake starts with both at zero.
pub open spec fn streak_bonus_consistent(s: StakeInfo) -> bool {
    s.compound_streak_multiplier == streak_multiplier_of(s.compound_streak)
}

/// Folds the rewards earned since the accrual anchor into
/// `accumulated_compound`, records the compound time, advances the streak
/// and recomputes the streak bonus. Rejected while unstaked or paused, when
/// the schedule is manual (auto-compounding disabled), when the frequency
/// code is unknown, or before the frequency's interval has passed since the
/// last compound; any
/// checked-arithmetic overflow surfaces as `ArithmeticError`. On any error
/// the position is left untouched.
///
/// The accrual anchor `last_claim_time` itself is deliberately not advanced
/// here, mirroring how compounding and claiming share one anchor.
pub fn process_auto_compound(
    stake_info: &mut StakeInfo,
    pool_state: &PoolState,
    current_time: i64,
) -> (r: Result<AutoCompoundOutcome, StakingError>)
    requires
        old(stake_info).wf(),
        current_time >= 0,
    ensures
        ({
            let pre = *old(stake_info);
            let post = *final(stake_info);
            let elapsed = current_time - pre.last_claim_time;
            let reward = if elapsed <= 0 {
                0
            } else {
                reward_amount_of(pre, *pool_state, elapsed)
            };
            let new_streak = next_streak_of(pre.compound_streak);
            let new_bonus = streak_multiplier_of(new_streak);
            let on_time = pre.is_staked && !pool_state.paused && is_auto_frequency(
                pre.compound_frequency,
            ) && current_time - pre.last_compound_time >= compound_interval_of(
                pre.compound_frequency,
            );
            &&& !pre.is_staked ==> r == Err::<AutoCompoundOutcome, StakingError>(
                StakingError::NotStaked,
            ) && post == pre
            &&& pre.is_staked && pool_state.paused ==> r == Err::<AutoCompoundOutcome, StakingError>(
                StakingError::PoolPaused,
            ) && post == pre
            &&& pre.is_staked && !pool_state.paused && pre.compound_frequency == 255 ==> r
                == Err::<AutoCompoundOutcome, StakingError>(StakingError::AutoCompoundNotEnabled)
                && post == pre
            &&& pre.is_staked && !pool_state.paused && pre.compound_frequency != 255
                && !is_auto_frequency(pre.compound_frequency) ==> r == Err::<
                AutoCompoundOutcome,
                StakingError,
            >(StakingError::InvalidCompoundFrequency) && post == pre
            &&& pre.is_staked && !pool_state.paused && is_auto_frequency(pre.compound_frequency)
                && current_time - pre.last_compound_time < compound_interval_of(
                pre.compound_frequency,
            ) ==> r == Err::<AutoCompoundOutcome, StakingError>(StakingError::CompoundTooEarly)
                && post == pre
            &&& on_time && elapsed > 0 && reward_overflows(pre, *pool_state, elapsed) ==> r
                == Err::<AutoCompoundOutcome, StakingError>(StakingError::ArithmeticError) && post
                == pre
            &&& on_time && !(elapsed > 0 && reward_overflows(pre, *pool_state, elapsed)) ==> {
                if pre.accumulated_compound + reward > u64::MAX {
                    &&& r == Err::<AutoCompoundOutcome, StakingError>(
                        StakingError::ArithmeticError,
                    )
                    &&& post == pre
                } else {
                    &&& post == (StakeInfo {
                        accumulated_compound: (pre.accumulated_compound + reward) as u64,
                        last_compound_time: current_time,
                        compound_streak: new_streak,
                        compound_streak_multiplier: new_bonus as u64,
                        ..pre
                    })
                    &&& r matches Ok(o) && o.compounded == (RewardsCompounded {
                        user: pre.owner,
                        amount: reward as u64,
                        new_total: (pre.accumulated_compound + reward) as u64,
                        nft_mint: pre.mint,
                        timestamp: current_time,
                    }) && o.streak == (if new_bonus != pre.compound_streak_multiplier {
                        Some(
                            CompoundStreakIncreased {
                                user: pre.owner,
                                nft_mint: pre.mint,
                                new_streak,
                                new_multiplier: new_bonus as u64,
                                timestamp: current_time,
                            },
                        )
                    } else {
                        None
                    })
                }
            }
            &&& r matches Ok(o) ==> streak_bonus_consistent(post)
            &&& post.milestones_achieved@ == pre.milestones_achieved@
            &&& post.wf()
        }),
{
    if !stake_info.is_staked {
        return Err(StakingError::NotStaked);
    }
    if pool_state.paused {
        return Err(StakingError::PoolPaused);
    }
    let compound_interval: i64 = if stake_info.compound_frequency == 0 {
        86400
    } else if stake_info.compound_frequency == 1 {
        604800
    } else if stake_info.compound_frequency == 2 {
        2592000
    } else if stake_info.compound_frequency == 255 {
        return Err(StakingError::AutoCompoundNotEnabled);
    } else {
        return Err(StakingError::InvalidCompoundFrequency);
    };

    if current_time - stake_info.last_compound_time < compound_interval {
        return Err(StakingError::CompoundTooEarly);
    }

    let earned_rewards: u64 = match calculate_rewards(stake_info, pool_state, current_time) {
        Ok(amount) => amount,
        Err(e) => {
            return Err(e);
        },
    };

    let new_total: u64 = match stake_info.accumulated_compound.checked_add(earned_rewards) {
        Some(t) => t,
        None => {
            return Err(StakingError::ArithmeticError);
        },
    };
    stake_info.accumulated_compound = new_total;
    stake_info.last_compound_time = current_time;

    let new_streak: u16 = if stake_info.compound_streak == 65535 {
        65535
    } else {
        stake_info.compound_streak + 1
    };
    stake_info.compound_streak = new_streak;

    let old_bonus: u64 = stake_info.compound_streak_multiplier;
    let streak_hundreds: u64 = ((new_streak / 5) as u64) * 100;
    let new_bonus: u64 = if streak_hundreds < 1000 {
        streak_hundreds
    } else {
        1000
    };
    stake_info.compound_streak_multiplier = new_bonus;

    let streak_event: Option<CompoundStreakIncreased> = if new_bonus != old_bonus {
        Some(
            CompoundStreakIncreased {
                user: stake_info.owner,
                nft_mint: stake_info.mint,
                new_streak,
                new_multiplier: new_bonus,
                timestamp: current_time,
            },
        )
    } else {
        None
    };
    Ok(
        AutoCompoundOutcome {
            compounded: RewardsCompounded {
                user: stake_info.owner,
                amount: earned_rewards,
                new_total,
                nft_mint: stake_info.mint,
                timestamp: current_time,
            },
            streak: streak_event,
        },
    )
}

/// Changes the compounding schedule of a staked position. Only the codes
/// 0 (daily), 1 (weekly), 2 (monthly) and 255 (manual) are accepted.
/// Switching into manual from an automatic schedule resets the streak and
/// its bonus; switching among the automatic schedules does not.
///
/// The storage collaborator hands in only records of currently staked
/// positions, so staking is a precondition here rather than an error.
pub fn set_compound_frequency(stake_info: &mut StakeInfo, frequency: u8, current_time: i64) -> (r:
    Result<CompoundFrequencyChanged, StakingError>)
    requires
        old(stake_info).is_staked,
    ensures
        ({
            let pre = *old(stake_info);
            let post = *final(stake_info);
            let to_manual = frequency == 255 && pre.compound_frequency != 255;
            &&& !(frequency == 0 || frequency == 1 || frequency == 2 || frequency == 255) ==> r
                == Err::<CompoundFrequencyChanged, StakingError>(
                StakingError::InvalidCompoundFrequency,
            ) && post == pre
            &&& (frequency == 0 || frequency == 1 || frequency == 2 || frequency == 255) ==> {
                &&& post == (StakeInfo {
                    compound_frequency: frequency,
                    compound_streak: if to_manual {
                        0u16
                    } else {
                        pre.compound_streak
                    },
                    compound_streak_multiplier: if to_manual {
                        0u64
                    } else {
                        pre.compound_streak_multiplier
                    },
                    ..pre
                })
                &&& r == Ok::<CompoundFrequencyChanged, StakingError>(
                    CompoundFrequencyChanged {
                        user: pre.owner,
                        nft_mint: pre.mint,
                        old_frequency: pre.compound_frequency,
                        new_frequency: frequency,
                        timestamp: current_time,
                    },
                )
            }
            &&& post.milestones_achieved@ == pre.milestones_achieved@
            &&& streak_bonus_consistent(pre) ==> streak_bonus_consistent(post)
            &&& pre.wf() ==> post.wf()
        }),
{
    if !(frequency == 0 || frequency == 1 || frequency == 2 || frequency == 255) {
        return Err(StakingError::InvalidCompoundFrequency);
    }
    let old_frequency: u8 = stake_info.compound_frequency;
    stake_info.compound_frequency = frequency;
    if frequency == 255 && old_frequency != 255 {
        stake_info.compound_streak = 0;
        stake_info.compound_streak_multiplier = 0;
    }
    Ok(
        CompoundFrequencyChanged {
            user: stake_info.owner,
            nft_mint: stake_info.mint,
            old_frequency,
            new_frequency: frequency,
            timestamp: current_time,
        },
    )
}

} // verus!
