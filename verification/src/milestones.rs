use vstd::prelude::*;

use vstd::arithmetic::div_mod::lemma_div_pos_is_pos;
use vstd::arithmetic::mul::lemma_mul_nonnegative;

use crate::compound::{is_auto_compounding, is_auto_frequency};
use crate::errors::StakingError;
use crate::events::MilestoneAchieved;
use crate::rewards::{base_daily_overflows, base_daily_reward, base_daily_reward_of};
use crate::state::{days_staked_of, PoolState, StakeInfo, MILESTONE_COUNT, SECONDS_PER_DAY};

verus! {

/// Day count at which the milestone with the given index is reached.
pub open spec fn milestone_threshold(index: int) -> int {
    if index == 0 {
        30
    } else if index == 1 {
        90
    } else if index == 2 {
        180
    } else {
        365
    }
}

/// One-time bonus, as a percentage of 30 days of base reward, granted for
/// the milestone with the given index.
pub open spec fn milestone_bonus_percent(index: int) -> int {
    if index == 0 {
        5
    } else if index == 1 {
        10
    } else if index == 2 {
        15
    } else {
        25
    }
}

/// Whether a pass at `days` staked days grants the milestone with the given
/// index: its threshold is reached and its flag is not yet set.
pub open spec fn milestone_granted(s: StakeInfo, days: int, index: int) -> bool {
    days >= milestone_threshold(index) && !s.milestones_achieved@[index]
}

/// The one-time bonus paid for a milestone: the given percentage of the
/// tier-scaled base daily reward, for a flat 30-day equivalent, independent
/// of how far past the threshold the position is.
pub open spec fn milestone_reward_of(pool: PoolState, tier: u8, index: int) -> int {
    base_daily_reward_of(pool, tier) * milestone_bonus_percent(index) / 100 * 30
}

/// Whether any checked step of a milestone reward computation overflows u64.
pub open spec fn milestone_reward_overflows(pool: PoolState, tier: u8, index: int) -> bool {
    ||| base_daily_overflows(pool, tier)
    ||| base_daily_reward_of(pool, tier) * milestone_bonus_percent(index) > u64::MAX
    ||| base_daily_reward_of(pool, tier) * milestone_bonus_percent(index) / 100 * 30 > u64::MAX
}

/// Sum of the rewards of the milestones granted among the first `k` indices.
pub open spec fn granted_reward_sum(s: StakeInfo, pool: PoolState, days: int, k: int) -> int
    decreases k,
{
    if k <= 0 {
        0
    } else {
        granted_reward_sum(s, pool, days, k - 1) + if milestone_granted(s, days, k - 1) {
            milestone_reward_of(pool, s.tier, k - 1)
        } else {
            0
        }
    }
}

/// Whether a pass at `days` staked days grants at least one milestone.
pub open spec fn any_milestone_granted(s: StakeInfo, days: int) -> bool {
    exists|i: int| 0 <= i < MILESTONE_COUNT && milestone_granted(s, days, i)
}

/// The smallest milestone threshold still ahead of `days` and not yet
/// flagged, or 0 when none remains.
pub open spec fn next_milestone_after(s: StakeInfo, days: int) -> u64 {
    if 30 > days && !s.milestones_achieved@[0] {
        30u64
    } else if 90 > days && !s.milestones_achieved@[1] {
        90u64
    } else if 180 > days && !s.milestones_achieved@[2] {
        180u64
    } else if 365 > days && !s.milestones_achieved@[3] {
        365u64
    } else {
        0u64
    }
}

/// The notification payloads of the milestones granted among the first `k`
/// indices, in index order.
pub open spec fn milestone_events_of(
    s: StakeInfo,
    pool: PoolState,
    days: int,
    now: i64,
    k: int,
) -> Seq<MilestoneAchieved>
    decreases k,
{
    if k <= 0 {
        Seq::empty()
    } else {
        milestone_events_of(s, pool, days, now, k - 1) + if milestone_granted(s, days, k - 1) {
            seq![
                MilestoneAchieved {
                    user: s.owner,
                    nft_mint: s.mint,
                    milestone_type: (k - 1) as u8,
                    reward_amount: milestone_reward_of(pool, s.tier, k - 1) as u64,
                    timestamp: now,
                },
            ]
        } else {
            Seq::empty()
        }
    }
}

/// Whether a whole milestone pass fails a checked step: some granted
/// milestone's reward overflows, or folding the granted rewards into the
/// accumulated balance would.
pub open spec fn milestone_pass_overflows(s: StakeInfo, pool: PoolState, days: int) -> bool {
    ||| exists|i: int|
        0 <= i < MILESTONE_COUNT && milestone_granted(s, days, i) && milestone_reward_overflows(
            pool,
            s.tier,
            i,
        )
    ||| (is_auto_frequency(s.compound_frequency) && s.accumulated_compound + granted_reward_sum(
        s,
        pool,
        days,
        MILESTONE_COUNT as int,
    ) > u64::MAX)
}

/// Fields a milestone pass never touches.
pub open spec fn same_but_milestones(a: StakeInfo, b: StakeInfo) -> bool {
    &&& a.owner == b.owner
    &&& a.mint == b.mint
    &&& a.staked_at == b.staked_at
    &&& a.release_date == b.release_date
    &&& a.is_staked == b.is_staked
    &&& a.tier == b.tier
    &&& a.last_claim_time == b.last_claim_time
    &&& a.staking_period == b.staking_period
    &&& a.current_time_multiplier == b.current_time_multiplier
    &&& a.last_multiplier_update == b.last_multiplier_update
    &&& a.compound_frequency == b.compound_frequency
    &&& a.last_compound_time == b.last_compound_time
    &&& a.compound_streak == b.compound_streak
    &&& a.compound_streak_multiplier == b.compound_streak_multiplier
}

/// The base daily reward is never negative.
pub proof fn lemma_base_daily_nonneg(pool: PoolState, tier: u8)
    ensures
        base_daily_reward_of(pool, tier) >= 0,
{
    lemma_mul_nonnegative(
        pool.reward_rate as int,
        crate::rewards::tier_multiplier_of(pool, tier) as int,
    );
    lemma_div_pos_is_pos(
        pool.reward_rate * crate::rewards::tier_multiplier_of(pool, tier),
        100,
    );
}

/// No milestone's reward is negative.
pub proof fn lemma_milestone_reward_nonneg(pool: PoolState, tier: u8, index: int)
    ensures
        milestone_reward_of(pool, tier, index) >= 0,
{
    lemma_base_daily_nonneg(pool, tier);
    lemma_mul_nonnegative(base_daily_reward_of(pool, tier), milestone_bonus_percent(index));
    lemma_div_pos_is_pos(
        base_daily_reward_of(pool, tier) * milestone_bonus_percent(index),
        100,
    );
    lemma_mul_nonnegative(
        base_daily_reward_of(pool, tier) * milestone_bonus_percent(index) / 100,
        30,
    );
}

/// The partial granted-reward sums are non-decreasing in the index bound.
pub proof fn lemma_granted_sum_monotone(
    s: StakeInfo,
    pool: PoolState,
    days: int,
    k1: int,
    k2: int,
)
    requires
        0 <= k1 <= k2,
    ensures
        granted_reward_sum(s, pool, days, k1) <= granted_reward_sum(s, pool, days, k2),
    decreases k2 - k1,
{
    if k1 < k2 {
        lemma_milestone_reward_nonneg(pool, s.tier, k2 - 1);
        lemma_granted_sum_monotone(s, pool, days, k1, k2 - 1);
    }
}

/// Returns the threshold, in days, of the milestone with the given index.
fn milestone_threshold_days(index: usize) -> (d: u64)
    requires
        index < MILESTONE_COUNT,
    ensures
        d == milestone_threshold(index as int),
{
    if index == 0 {
        30
    } else if index == 1 {
        90
    } else if index == 2 {
        180
    } else {
        365
    }
}

/// Computes the one-time bonus for one milestone, or `ArithmeticError` when
/// a checked step overflows.
fn milestone_reward(pool_state: &PoolState, tier: u8, index: usize) -> (r: Result<
    u64,
    StakingError,
>)
    requires
        index < MILESTONE_COUNT,
    ensures
        milestone_reward_overflows(*pool_state, tier, index as int) ==> r == Err::<
            u64,
            StakingError,
        >(StakingError::ArithmeticError),
        !milestone_reward_overflows(*pool_state, tier, index as int) ==> r == Ok::<
            u64,
            StakingError,
        >(milestone_reward_of(*pool_state, tier, index as int) as u64),
{
    let base_daily: u64 = match base_daily_reward(pool_state, tier) {
        Ok(b) => b,
        Err(e) => {
            return Err(e);
        },
    };
    let bonus_percent: u64 = if index == 0 {
        5
    } else if index == 1 {
        10
    } else if index == 2 {
        15
    } else {
        25
    };
    let scaled: u64 = match base_daily.checked_mul(bonus_percent) {
        Some(p) => p / 100,
        None => {
            return Err(StakingError::ArithmeticError);
        },
    };
    match scaled.checked_mul(30) {
        Some(reward) => Ok(reward),
        None => Err(StakingError::ArithmeticError),
    }
}

/// Walks all milestone thresholds in one pass: every threshold that `now`
/// has reached and that is not yet flagged is granted, so several can be
/// granted at once when time has skipped ahead. Each granted bonus is folded
/// into `accumulated_compound` when the position is on an automatic
/// compounding schedule, and is
/// always reported in the returned payloads for the payout collaborator.
/// After a pass that granted anything, `next_milestone_days` points at the
/// smallest remaining threshold, or 0 when none remains.
///
/// Flags are monotonic: a set flag is never cleared. On any error the
/// position is left untouched.
pub fn check_and_process_milestone(
    stake_info: &mut StakeInfo,
    pool_state: &PoolState,
    current_time: i64,
) -> (r: Result<Vec<MilestoneAchieved>, StakingError>)
    requires
        old(stake_info).wf(),
        current_time >= old(stake_info).staked_at,
    ensures
        ({
            let pre = *old(stake_info);
            let post = *final(stake_info);
            let days = days_staked_of(pre, current_time);
            &&& (if milestone_pass_overflows(pre, *pool_state, days) {
                &&& r == Err::<Vec<MilestoneAchieved>, StakingError>(StakingError::ArithmeticError)
                &&& post == pre
            } else {
                &&& r matches Ok(events) && events@ == milestone_events_of(
                    pre,
                    *pool_state,
                    days,
                    current_time,
                    MILESTONE_COUNT as int,
                )
                &&& post.milestones_achieved@.len() == MILESTONE_COUNT
                &&& forall|i: int|
                    0 <= i < MILESTONE_COUNT ==> post.milestones_achieved@[i]
                        == (pre.milestones_achieved@[i] || days >= milestone_threshold(i))
                &&& post.accumulated_compound == pre.accumulated_compound + (
                if is_auto_frequency(pre.compound_frequency) {
                    granted_reward_sum(pre, *pool_state, days, MILESTONE_COUNT as int)
                } else {
                    0
                })
                &&& post.next_milestone_days == (if any_milestone_granted(pre, days) {
                    next_milestone_after(pre, days)
                } else {
                    pre.next_milestone_days
                })
            })
            &&& same_but_milestones(pre, post)
            &&& forall|i: int|
                0 <= i < MILESTONE_COUNT && pre.milestones_achieved@[i]
                    ==> post.milestones_achieved@[i]
            &&& post.wf()
        }),
{
    let ghost s0 = *stake_info;
    let ghost days: int = days_staked_of(s0, current_time);

    let days_staked: u64 = ((current_time - stake_info.staked_at) as u64) / SECONDS_PER_DAY;
    proof {
        assert(days_staked as int == days);
    }

    let auto_mode: bool = is_auto_compounding(stake_info.compound_frequency);
    let mut new_flags: Vec<bool> = Vec::new();
    let mut events: Vec<MilestoneAchieved> = Vec::new();
    let mut accumulated: u64 = stake_info.accumulated_compound;
    let mut any_granted: bool = false;
    let mut index: usize = 0;

    while index < MILESTONE_COUNT
        invariant
            index <= MILESTONE_COUNT,
            *stake_info == s0,
            s0.wf(),
            current_time >= s0.staked_at,
            days == days_staked_of(s0, current_time),
            days_staked as int == days,
            new_flags@.len() == index as int,
            forall|j: int|
                0 <= j < index ==> new_flags@[j] == (s0.milestones_achieved@[j]
                    || days >= milestone_threshold(j)),
            forall|j: int|
                0 <= j < index ==> !(milestone_granted(s0, days, j) && milestone_reward_overflows(
                    *pool_state,
                    s0.tier,
                    j,
                )),
            auto_mode == is_auto_frequency(s0.compound_frequency),
            accumulated as int == s0.accumulated_compound + (if auto_mode {
                granted_reward_sum(s0, *pool_state, days, index as int)
            } else {
                0
            }),
            events@ == milestone_events_of(s0, *pool_state, days, current_time, index as int),
            any_granted == exists|j: int| 0 <= j < index && milestone_granted(s0, days, j),
        decreases MILESTONE_COUNT - index,
    {
        let threshold: u64 = milestone_threshold_days(index);
        let already_achieved: bool = stake_info.milestones_achieved[index];
        let granted: bool = days_staked >= threshold && !already_achieved;
        proof {
            assert(granted == milestone_granted(s0, days, index as int));
        }
        if granted {
            let reward: u64 = match milestone_reward(pool_state, stake_info.tier, index) {
                Ok(r) => r,
                Err(e) => {
                    proof {
                        assert(milestone_granted(s0, days, index as int)
                            && milestone_reward_overflows(*pool_state, s0.tier, index as int));
                    }
                    return Err(e);
                },
            };
            if auto_mode {
                accumulated = match accumulated.checked_add(reward) {
                    Some(a) => a,
                    None => {
                        proof {
                            lemma_granted_sum_monotone(
                                s0,
                                *pool_state,
                                days,
                                index as int + 1,
                                MILESTONE_COUNT as int,
                            );
                        }
                        return Err(StakingError::ArithmeticError);
                    },
                };
            }
            events.push(
                MilestoneAchieved {
                    user: stake_info.owner,
                    nft_mint: stake_info.mint,
                    milestone_type: index as u8,
                    reward_amount: reward,
                    timestamp: current_time,
                },
            );
            new_flags.push(true);
            any_granted = true;
        } else {
            new_flags.push(already_achieved);
        }
        proof {
            assert(events@ =~= milestone_events_of(
                s0,
                *pool_state,
                days,
                current_time,
                index as int + 1,
            ));
        }
        index = index + 1;
    }

    let next_milestone: u64 = if days_staked < 30 && !stake_info.milestones_achieved[0] {
        30
    } else if days_staked < 90 && !stake_info.milestones_achieved[1] {
        90
    } else if days_staked < 180 && !stake_info.milestones_achieved[2] {
        180
    } else if days_staked < 365 && !stake_info.milestones_achieved[3] {
        365
    } else {
        0
    };

    stake_info.milestones_achieved = new_flags;
    stake_info.accumulated_compound = accumulated;
    if any_granted {
        stake_info.next_milestone_days = next_milestone;
    }
    Ok(events)
}

} // verus!
