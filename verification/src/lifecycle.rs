use vstd::prelude::*;

use vstd::arithmetic::div_mod::{lemma_div_is_ordered, lemma_div_multiples_vanish};
use vstd::arithmetic::mul::lemma_mul_inequality;

use crate::collection::{collection_bonus_of, update_collection_bonus};
use crate::compound::streak_bonus_consistent;
use crate::errors::StakingError;
use crate::events::{CollectionBonusUpdated, EmergencyUnstakeOutcome, EmergencyUnstaked, NftStaked,
    StakeOutcome};
use crate::rewards::{calculate_rewards, reward_amount_of, reward_overflows};
use crate::state::{days_staked_of, PoolState, StakeInfo, UserStakingInfo, MILESTONE_COUNT, SECONDS_PER_DAY};

verus! {

/// Penalty, in percent of the earned reward, for leaving early at the given
/// completion percentage: 50% below 30% progress, 30% below 60%, 15% below
/// 90%, and 5% from 90% up.
pub open spec fn emergency_penalty_percent(progress: int) -> int {
    if progress < 30 {
        50
    } else if progress < 60 {
        30
    } else if progress < 90 {
        15
    } else {
        5
    }
}

/// How far through its staking period a position is, in whole percent.
pub open spec fn stake_progress_of(s: StakeInfo, now: i64) -> int {
    days_staked_of(s, now) * 100 / (s.staking_period as int)
}

/// `after` is `before` with exactly the first occurrence of `item` removed.
pub open spec fn removes_first(before: Seq<u64>, after: Seq<u64>, item: u64) -> bool {
    exists|k: int|
        #![auto]
        0 <= k < before.len() && before[k] == item && (forall|j: int|
            0 <= j < k ==> before[j] != item) && after == before.remove(k)
}

/// Stakes an item: validates the pool state, the tier, the period and the
/// depositor's capacity, then initializes every field of the position
/// record, adds the item to the depositor's staked set, and refreshes the
/// collection bonus. The `auto_compound` request only selects the initial
/// compounding schedule: daily when asked for, manual otherwise. On any
/// error both records are left untouched.
pub fn stake_nft(
    stake_info: &mut StakeInfo,
    user_staking_info: &mut UserStakingInfo,
    pool_state: &PoolState,
    owner: u64,
    nft_mint: u64,
    staking_period: u64,
    nft_tier: u8,
    auto_compound: bool,
    current_time: i64,
) -> (r: Result<StakeOutcome, StakingError>)
    requires
        old(user_staking_info).wf(),
        current_time >= 0,
        (!pool_state.paused && nft_tier <= 3 && staking_period >= 1 && old(
            user_staking_info,
        ).staked_count < pool_state.max_nfts_per_user) ==> current_time + staking_period * 86400
            <= i64::MAX,
    ensures
        ({
            let pre_s = *old(stake_info);
            let post_s = *final(stake_info);
            let pre_u = *old(user_staking_info);
            let post_u = *final(user_staking_info);
            let new_bonus = collection_bonus_of(pre_u.staked_count + 1);
            &&& pool_state.paused ==> r == Err::<StakeOutcome, StakingError>(
                StakingError::PoolPaused,
            ) && post_s == pre_s && post_u == pre_u
            &&& !pool_state.paused && nft_tier > 3 ==> r == Err::<StakeOutcome, StakingError>(
                StakingError::InvalidNftTier,
            ) && post_s == pre_s && post_u == pre_u
            &&& !pool_state.paused && nft_tier <= 3 && staking_period == 0 ==> r == Err::<
                StakeOutcome,
                StakingError,
            >(StakingError::InvalidStakingPeriod) && post_s == pre_s && post_u == pre_u
            &&& !pool_state.paused && nft_tier <= 3 && staking_period >= 1 && pre_u.staked_count
                >= pool_state.max_nfts_per_user ==> r == Err::<StakeOutcome, StakingError>(
                StakingError::MaxNftsExceeded,
            ) && post_s == pre_s && post_u == pre_u
            &&& !pool_state.paused && nft_tier <= 3 && staking_period >= 1 && pre_u.staked_count
                < pool_state.max_nfts_per_user ==> {
                &&& post_s.owner == owner
                &&& post_s.mint == nft_mint
                &&& post_s.staked_at == current_time
                &&& post_s.release_date == current_time + staking_period * 86400
                &&& post_s.is_staked
                &&& post_s.tier == nft_tier
                &&& post_s.last_claim_time == current_time
                &&& post_s.staking_period == staking_period
                &&& post_s.accumulated_compound == 0
                &&& post_s.current_time_multiplier == 0
                &&& post_s.last_multiplier_update == current_time
                &&& post_s.milestones_achieved@.len() == MILESTONE_COUNT
                &&& forall|i: int|
                    0 <= i < MILESTONE_COUNT ==> !post_s.milestones_achieved@[i]
                &&& post_s.next_milestone_days == 30
                &&& post_s.compound_frequency == (if auto_compound {
                    0u8
                } else {
                    255u8
                })
                &&& post_s.last_compound_time == current_time
                &&& post_s.compound_streak == 0
                &&& post_s.compound_streak_multiplier == 0
                &&& streak_bonus_consistent(post_s)
                &&& post_s.wf()
                &&& post_u.owner == pre_u.owner
                &&& post_u.staked_mints@ == pre_u.staked_mints@.push(nft_mint)
                &&& post_u.staked_count == pre_u.staked_count + 1
                &&& post_u.collection_bonus == new_bonus
                &&& post_u.wf()
                &&& r matches Ok(o) && o.staked == (NftStaked {
                    user: owner,
                    nft_mint,
                    timestamp: current_time,
                    tier: nft_tier,
                    staking_period,
                }) && o.collection == (if new_bonus != pre_u.collection_bonus {
                    Some(
                        CollectionBonusUpdated {
                            user: owner,
                            staked_count: (pre_u.staked_count + 1) as u8,
                            new_bonus: new_bonus as u64,
                            timestamp: current_time,
                        },
                    )
                } else {
                    None
                })
            }
        }),
{
    if pool_state.paused {
        return Err(StakingError::PoolPaused);
    }
    if nft_tier > 3 {
        return Err(StakingError::InvalidNftTier);
    }
    if staking_period == 0 {
        return Err(StakingError::InvalidStakingPeriod);
    }
    if user_staking_info.staked_count >= pool_state.max_nfts_per_user {
        return Err(StakingError::MaxNftsExceeded);
    }

    let mut milestone_flags: Vec<bool> = Vec::new();
    milestone_flags.push(false);
    milestone_flags.push(false);
    milestone_flags.push(false);
    milestone_flags.push(false);
    *stake_info = StakeInfo {
        owner,
        mint: nft_mint,
        staked_at: current_time,
        release_date: current_time + (staking_period as i64) * 86400,
        is_staked: true,
        tier: nft_tier,
        last_claim_time: current_time,
        staking_period,
        accumulated_compound: 0,
        current_time_multiplier: 0,
        last_multiplier_update: current_time,
        milestones_achieved: milestone_flags,
        next_milestone_days: 30,
        compound_frequency: if auto_compound {
            0
        } else {
            255
        },
        last_compound_time: current_time,
        compound_streak: 0,
        compound_streak_multiplier: 0,
    };

    user_staking_info.staked_mints.push(nft_mint);
    user_staking_info.staked_count = user_staking_info.staked_count + 1;
    let bonus_changed: bool = update_collection_bonus(user_staking_info);

    let collection_event: Option<CollectionBonusUpdated> = if bonus_changed {
        Some(
            CollectionBonusUpdated {
                user: owner,
                staked_count: user_staking_info.staked_count,
                new_bonus: user_staking_info.collection_bonus,
                timestamp: current_time,
            },
        )
    } else {
        None
    };
    Ok(
        StakeOutcome {
            staked: NftStaked {
                user: owner,
                nft_mint,
                timestamp: current_time,
                tier: nft_tier,
                staking_period,
            },
            collection: collection_event,
        },
    )
}

/// Unstakes a position before its period completes. The earned reward is
/// penalized by a percentage that falls as completion progress rises, the
/// item leaves the depositor's staked set, the collection bonus is
/// refreshed, and the position becomes terminally unstaked. On any error
/// both records are left untouched.
pub fn emergency_unstake_nft(
    stake_info: &mut StakeInfo,
    user_staking_info: &mut UserStakingInfo,
    pool_state: &PoolState,
    current_time: i64,
) -> (r: Result<EmergencyUnstakeOutcome, StakingError>)
    requires
        old(stake_info).wf(),
        old(user_staking_info).wf(),
        old(stake_info).is_staked ==> current_time >= old(stake_info).staked_at,
    ensures
        ({
            let pre_s = *old(stake_info);
            let post_s = *final(stake_info);
            let pre_u = *old(user_staking_info);
            let post_u = *final(user_staking_info);
            let progress = stake_progress_of(pre_s, current_time);
            let percent = emergency_penalty_percent(progress);
            let elapsed = current_time - pre_s.last_claim_time;
            let reward = if elapsed <= 0 {
                0
            } else {
                reward_amount_of(pre_s, *pool_state, elapsed)
            };
            let penalty = reward * percent / 100;
            &&& !pre_s.is_staked ==> r == Err::<EmergencyUnstakeOutcome, StakingError>(
                StakingError::NotStaked,
            ) && post_s == pre_s && post_u == pre_u
            &&& pre_s.is_staked && pool_state.paused ==> r == Err::<
                EmergencyUnstakeOutcome,
                StakingError,
            >(StakingError::PoolPaused) && post_s == pre_s && post_u == pre_u
            &&& pre_s.is_staked && !pool_state.paused && elapsed > 0 && reward_overflows(
                pre_s,
                *pool_state,
                elapsed,
            ) ==> r == Err::<EmergencyUnstakeOutcome, StakingError>(StakingError::ArithmeticError)
                && post_s == pre_s && post_u == pre_u
            &&& pre_s.is_staked && !pool_state.paused && !(elapsed > 0 && reward_overflows(
                pre_s,
                *pool_state,
                elapsed,
            )) ==> {
                if reward * percent > u64::MAX {
                    &&& r == Err::<EmergencyUnstakeOutcome, StakingError>(
                        StakingError::ArithmeticError,
                    )
                    &&& post_s == pre_s
                    &&& post_u == pre_u
                } else {
                    &&& post_s == (StakeInfo { is_staked: false, ..pre_s })
                    &&& (if pre_u.staked_mints@.contains(pre_s.mint) {
                        removes_first(pre_u.staked_mints@, post_u.staked_mints@, pre_s.mint)
                            && post_u.staked_count == pre_u.staked_count - 1
                    } else {
                        post_u.staked_mints@ == pre_u.staked_mints@ && post_u.staked_count
                            == pre_u.staked_count
                    })
                    &&& post_u.owner == pre_u.owner
                    &&& post_u.collection_bonus == collection_bonus_of(post_u.staked_count as int)
                    &&& post_u.wf()
                    &&& r matches Ok(o) && o.unstaked == (EmergencyUnstaked {
                        user: pre_s.owner,
                        nft_mint: pre_s.mint,
                        earned_rewards: reward as u64,
                        penalty_amount: penalty as u64,
                        final_rewards: (reward - penalty) as u64,
                        progress_percentage: (progress % 256) as u8,
                        timestamp: current_time,
                    }) && o.collection == (if post_u.collection_bonus != pre_u.collection_bonus {
                        Some(
                            CollectionBonusUpdated {
                                user: pre_s.owner,
                                staked_count: post_u.staked_count,
                                new_bonus: post_u.collection_bonus,
                                timestamp: current_time,
                            },
                        )
                    } else {
                        None
                    })
                }
            }
            &&& post_s.milestones_achieved@ == pre_s.milestones_achieved@
            &&& post_s.wf()
        }),
{
    let ghost pre_u = *user_staking_info;
    if !stake_info.is_staked {
        return Err(StakingError::NotStaked);
    }
    if pool_state.paused {
        return Err(StakingError::PoolPaused);
    }

    let days_staked: u64 = ((current_time - stake_info.staked_at) as u64) / SECONDS_PER_DAY;
    proof {
        lemma_div_is_ordered(
            current_time - stake_info.staked_at,
            i64::MAX as int,
            SECONDS_PER_DAY as int,
        );
    }
    let progress_percentage: u64 = (days_staked * 100) / stake_info.staking_period;
    let penalty_percentage: u64 = if progress_percentage < 30 {
        50
    } else if progress_percentage < 60 {
        30
    } else if progress_percentage < 90 {
        15
    } else {
        5
    };

    let earned_rewards: u64 = match calculate_rewards(stake_info, pool_state, current_time) {
        Ok(amount) => amount,
        Err(e) => {
            return Err(e);
        },
    };

    let penalty_amount: u64 = match earned_rewards.checked_mul(penalty_percentage) {
        Some(p) => p / 100,
        None => {
            return Err(StakingError::ArithmeticError);
        },
    };
    proof {
        lemma_mul_inequality(penalty_percentage as int, 100, earned_rewards as int);
        lemma_div_is_ordered(
            earned_rewards as int * penalty_percentage as int,
            earned_rewards as int * 100,
            100,
        );
        lemma_div_multiples_vanish(earned_rewards as int, 100);
    }
    let final_rewards: u64 = earned_rewards - penalty_amount;

    let mint: u64 = stake_info.mint;
    let list_len: usize = user_staking_info.staked_mints.len();
    let mut position: usize = 0;
    while position < list_len && user_staking_info.staked_mints[position] != mint
        invariant
            position <= list_len,
            *user_staking_info == pre_u,
            list_len == pre_u.staked_mints@.len(),
            forall|j: int| 0 <= j < position ==> pre_u.staked_mints@[j] != mint,
        decreases list_len - position,
    {
        position = position + 1;
    }

    if position < list_len {
        user_staking_info.staked_mints.remove(position);
        user_staking_info.staked_count = user_staking_info.staked_count - 1;
        proof {
            assert(removes_first(
                pre_u.staked_mints@,
                user_staking_info.staked_mints@,
                mint,
            ));
        }
    } else {
        proof {
            assert(!pre_u.staked_mints@.contains(mint));
        }
    }

    let bonus_changed: bool = update_collection_bonus(user_staking_info);
    stake_info.is_staked = false;

    let collection_event: Option<CollectionBonusUpdated> = if bonus_changed {
        Some(
            CollectionBonusUpdated {
                user: stake_info.owner,
                staked_count: user_staking_info.staked_count,
                new_bonus: user_staking_info.collection_bonus,
                timestamp: current_time,
            },
        )
    } else {
        None
    };
    Ok(
        EmergencyUnstakeOutcome {
            unstaked: EmergencyUnstaked {
                user: stake_info.owner,
                nft_mint: mint,
                earned_rewards,
                penalty_amount,
                final_rewards,
                progress_percentage: (progress_percentage % 256) as u8,
                timestamp: current_time,
            },
            collection: collection_event,
        },
    )
}

} // verus!
