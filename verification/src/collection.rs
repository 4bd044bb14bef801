use vstd::prelude::*;

use crate::state::UserStakingInfo;

verus! {

/// The collection bonus owed for a given number of concurrently staked
/// items, in basis points: 0 below 3 items, 500 for 3 to 5, 1000 for 6 to
/// 10, 1500 for 11 to 20, and 2000 from 21 up.
pub open spec fn collection_bonus_of(staked_count: int) -> int {
    if staked_count >= 21 {
        2000
    } else if staked_count >= 11 {
        1500
    } else if staked_count >= 6 {
        1000
    } else if staked_count >= 3 {
        500
    } else {
        0
    }
}

/// Recomputes the depositor's collection bonus from the staked count and
/// reports whether it changed, so the caller can decide whether to notify.
pub fn update_collection_bonus(user_staking_info: &mut UserStakingInfo) -> (changed: bool)
    ensures
        final(user_staking_info).collection_bonus == collection_bonus_of(
            old(user_staking_info).staked_count as int,
        ),
        changed == (old(user_staking_info).collection_bonus
            != final(user_staking_info).collection_bonus),
        final(user_staking_info).owner == old(user_staking_info).owner,
        final(user_staking_info).staked_count == old(user_staking_info).staked_count,
        final(user_staking_info).staked_mints@ == old(user_staking_info).staked_mints@,
{
    let staked_count: u8 = user_staking_info.staked_count;
    let new_bonus: u64 = if staked_count >= 21 {
        2000
    } else if staked_count >= 11 {
        1500
    } else if staked_count >= 6 {
        1000
    } else if staked_count >= 3 {
        500
    } else {
        0
    };
    let changed: bool = new_bonus != user_staking_info.collection_bonus;
    if changed {
        user_staking_info.collection_bonus = new_bonus;
    }
    changed
}

} // verus!
