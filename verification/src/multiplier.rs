use vstd::prelude::*;

use vstd::arithmetic::div_mod::lemma_div_is_ordered;
use vstd::arithmetic::mul::lemma_mul_inequality;

use crate::compound::is_auto_frequency;
use crate::errors::StakingError;
use crate::events::{MilestoneAchieved, MultiplierUpdateOutcome, MultiplierUpdated};
use crate::milestones::{
    any_milestone_granted, check_and_process_milestone, granted_reward_sum, milestone_events_of,
    milestone_pass_overflows, milestone_threshold, next_milestone_after, same_but_milestones,
};
use crate::state::{days_staked_of, PoolState, StakeInfo, MILESTONE_COUNT, SECONDS_PER_DAY};

verus! {

/// The duration-based multiplier a position is owed at `now`: one increment
/// per completed multiplier period, capped at the pool maximum. The product
/// saturates, so a capped pool value is returned even for absurd period
/// counts.
pub open spec fn time_multiplier_candidate(s: StakeInfo, pool: PoolState, now: i64) -> int {
    let periods = days_staked_of(s, now) / (pool.time_multiplier_period_days as int);
    if periods * pool.time_multiplier_increment < pool.max_time_multiplier {
        periods * pool.time_multiplier_increment
    } else {
        pool.max_time_multiplier as int
    }
}

/// Law: with time held non-decreasing, the duration-based multiplier
/// candidate is non-decreasing, and it never exceeds the pool cap. Combined
/// with `update_time_multiplier`'s postcondition that the stored multiplier
/// becomes the candidate exactly when the candidate has grown past it, the
/// stored multiplier is non-decreasing over successive calls.
pub proof fn lemma_time_multiplier_monotone(
    s: StakeInfo,
    pool: PoolState,
    earlier: i64,
    later: i64,
)
    requires
        pool.wf(),
        s.staked_at <= earlier <= later,
    ensures
        time_multiplier_candidate(s, pool, earlier) <= time_multiplier_candidate(s, pool, later),
        time_multiplier_candidate(s, pool, later) <= pool.max_time_multiplier,
{
    let period = pool.time_multiplier_period_days as int;
    lemma_div_is_ordered(earlier - s.staked_at, later - s.staked_at, SECONDS_PER_DAY as int);
    lemma_div_is_ordered(
        days_staked_of(s, earlier),
        days_staked_of(s, later),
        period,
    );
    lemma_mul_inequality(
        days_staked_of(s, earlier) / period,
        days_staked_of(s, later) / period,
        pool.time_multiplier_increment as int,
    );
}

/// Recomputes the duration-based multiplier of a staked position. When it
/// has grown, the new value is stored, the update time recorded, and the
/// milestone pass runs before the change is reported; otherwise nothing is
/// mutated and nothing reported. The stored multiplier never decreases and
/// never exceeds the pool cap.
pub fn update_time_multiplier(
    stake_info: &mut StakeInfo,
    pool_state: &PoolState,
    current_time: i64,
) -> (r: Result<MultiplierUpdateOutcome, StakingError>)
    requires
        old(stake_info).wf(),
        pool_state.wf(),
        old(stake_info).is_staked ==> current_time >= old(stake_info).staked_at,
        old(stake_info).current_time_multiplier <= pool_state.max_time_multiplier,
    ensures
        ({
            let pre = *old(stake_info);
            let post = *final(stake_info);
            let days = days_staked_of(pre, current_time);
            let candidate = time_multiplier_candidate(pre, *pool_state, current_time);
            let bumped = (StakeInfo {
                current_time_multiplier: candidate as u64,
                last_multiplier_update: current_time,
                ..pre
            });
            &&& !pre.is_staked ==> r == Err::<MultiplierUpdateOutcome, StakingError>(
                StakingError::NotStaked,
            ) && post == pre
            &&& pre.is_staked && pool_state.paused ==> r == Err::<
                MultiplierUpdateOutcome,
                StakingError,
            >(StakingError::PoolPaused) && post == pre
            &&& pre.is_staked && !pool_state.paused && candidate <= pre.current_time_multiplier
                ==> {
                &&& r matches Ok(o) && o.updated is None && o.milestones@ == Seq::<
                    MilestoneAchieved,
                >::empty()
                &&& post == pre
            }
            &&& pre.is_staked && !pool_state.paused && candidate > pre.current_time_multiplier
                ==> {
                if milestone_pass_overflows(bumped, *pool_state, days) {
                    &&& r == Err::<MultiplierUpdateOutcome, StakingError>(
                        StakingError::ArithmeticError,
                    )
                    &&& post == pre
                } else {
                    &&& r matches Ok(o) && o.updated == Some(
                        MultiplierUpdated {
                            user: pre.owner,
                            nft_mint: pre.mint,
                            old_multiplier: pre.current_time_multiplier,
                            new_multiplier: candidate as u64,
                            days_staked: days as u64,
                            timestamp: current_time,
                        },
                    ) && o.milestones@ == milestone_events_of(
                        bumped,
                        *pool_state,
                        days,
                        current_time,
                        MILESTONE_COUNT as int,
                    )
                    &&& post.current_time_multiplier == candidate
                    &&& post.last_multiplier_update == current_time
                    &&& post.milestones_achieved@.len() == MILESTONE_COUNT
                    &&& forall|i: int|
                        0 <= i < MILESTONE_COUNT ==> post.milestones_achieved@[i]
                            == (pre.milestones_achieved@[i] || days >= milestone_threshold(i))
                    &&& post.accumulated_compound == pre.accumulated_compound + (
                    if is_auto_frequency(pre.compound_frequency) {
                        granted_reward_sum(bumped, *pool_state, days, MILESTONE_COUNT as int)
                    } else {
                        0
                    })
                    &&& post.next_milestone_days == (if any_milestone_granted(bumped, days) {
                        next_milestone_after(bumped, days)
                    } else {
                        pre.next_milestone_days
                    })
                    &&& same_but_milestones(bumped, post)
                }
            }
            &&& post.current_time_multiplier >= pre.current_time_multiplier
            &&& post.current_time_multiplier <= pool_state.max_time_multiplier
            &&& forall|i: int|
                0 <= i < MILESTONE_COUNT && pre.milestones_achieved@[i]
                    ==> post.milestones_achieved@[i]
            &&& post.wf()
        }),
{
    let ghost pre = *stake_info;
    if !stake_info.is_staked {
        return Err(StakingError::NotStaked);
    }
    if pool_state.paused {
        return Err(StakingError::PoolPaused);
    }

    let days_staked: u64 = ((current_time - stake_info.staked_at) as u64) / SECONDS_PER_DAY;
    let multiplier_periods: u64 = days_staked / pool_state.time_multiplier_period_days;
    let raw_multiplier: u64 = match multiplier_periods.checked_mul(
        pool_state.time_multiplier_increment,
    ) {
        Some(p) => p,
        None => u64::MAX,
    };
    let new_multiplier: u64 = if raw_multiplier < pool_state.max_time_multiplier {
        raw_multiplier
    } else {
        pool_state.max_time_multiplier
    };
    proof {
        assert(new_multiplier as int == time_multiplier_candidate(pre, *pool_state, current_time));
    }

    if new_multiplier > stake_info.current_time_multiplier {
        let old_multiplier: u64 = stake_info.current_time_multiplier;
        let previous_update_time: i64 = stake_info.last_multiplier_update;
        stake_info.current_time_multiplier = new_multiplier;
        stake_info.last_multiplier_update = current_time;

        let milestones: Vec<MilestoneAchieved> = match check_and_process_milestone(
            stake_info,
            pool_state,
            current_time,
        ) {
            Ok(events) => events,
            Err(e) => {
                stake_info.current_time_multiplier = old_multiplier;
                stake_info.last_multiplier_update = previous_update_time;
                proof {
                    assert(*stake_info == pre);
                }
                return Err(e);
            },
        };
        Ok(
            MultiplierUpdateOutcome {
                updated: Some(
                    MultiplierUpdated {
                        user: stake_info.owner,
                        nft_mint: stake_info.mint,
                        old_multiplier,
                        new_multiplier,
                        days_staked,
                        timestamp: current_time,
                    },
                ),
                milestones,
            },
        )
    } else {
        Ok(MultiplierUpdateOutcome { updated: None, milestones: Vec::new() })
    }
}

} // verus!
