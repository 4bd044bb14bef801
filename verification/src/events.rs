use vstd::prelude::*;

verus! {

/// A position was staked.
#[derive(Clone, Copy, Debug, PartialEq, Eq, Structural)]
pub struct NftStaked {
    pub user: u64,
    pub nft_mint: u64,
    pub timestamp: i64,
    pub tier: u8,
    pub staking_period: u64,
}

/// The duration-based multiplier of a position grew.
#[derive(Clone, Copy, Debug, PartialEq, Eq, Structural)]
pub struct MultiplierUpdated {
    pub user: u64,
    pub nft_mint: u64,
    pub old_multiplier: u64,
    pub new_multiplier: u64,
    pub days_staked: u64,
    pub timestamp: i64,
}

/// A milestone threshold was crossed and its one-time bonus granted.
#[derive(Clone, Copy, Debug, PartialEq, Eq, Structural)]
pub struct MilestoneAchieved {
    pub user: u64,
    pub nft_mint: u64,
    pub milestone_type: u8,
    pub reward_amount: u64,
    pub timestamp: i64,
}

/// Earned rewards were folded back into the position.
#[derive(Clone, Copy, Debug, PartialEq, Eq, Structural)]
pub struct RewardsCompounded {
    pub user: u64,
    pub amount: u64,
    pub new_total: u64,
    pub nft_mint: u64,
    pub timestamp: i64,
}

/// The compounding streak reached a new bonus level.
#[derive(Clone, Copy, Debug, PartialEq, Eq, Structural)]
pub struct CompoundStreakIncreased {
    pub user: u64,
    pub nft_mint: u64,
    pub new_streak: u16,
    pub new_multiplier: u64,
    pub timestamp: i64,
}

/// The compounding schedule of a position changed.
#[derive(Clone, Copy, Debug, PartialEq, Eq, Structural)]
pub struct CompoundFrequencyChanged {
    pub user: u64,
    pub nft_mint: u64,
    pub old_frequency: u8,
    pub new_frequency: u8,
    pub timestamp: i64,
}

/// The depositor's collection bonus moved to a different band.
#[derive(Clone, Copy, Debug, PartialEq, Eq, Structural)]
pub struct CollectionBonusUpdated {
    pub user: u64,
    pub staked_count: u8,
    pub new_bonus: u64,
    pub timestamp: i64,
}

/// A position left early and its reward was penalized.
#[derive(Clone, Copy, Debug, PartialEq, Eq, Structural)]
pub struct EmergencyUnstaked {
    pub user: u64,
    pub nft_mint: u64,
    pub earned_rewards: u64,
    pub penalty_amount: u64,
    pub final_rewards: u64,
    pub progress_percentage: u8,
    pub timestamp: i64,
}

/// What a multiplier update hands back: the multiplier change, if any, and
/// the milestones granted along with it.
#[derive(Debug)]
pub struct MultiplierUpdateOutcome {
    pub updated: Option<MultiplierUpdated>,
    pub milestones: Vec<MilestoneAchieved>,
}

/// What a successful auto-compound hands back: the compounded amount and,
/// when the streak bonus moved, the new streak level.
#[derive(Debug)]
pub struct AutoCompoundOutcome {
    pub compounded: RewardsCompounded,
    pub streak: Option<CompoundStreakIncreased>,
}

/// What a successful stake hands back: the stake notification and, when the
/// collection bonus moved, the new band.
#[derive(Debug)]
pub struct StakeOutcome {
    pub staked: NftStaked,
    pub collection: Option<CollectionBonusUpdated>,
}

/// What a successful emergency unstake hands back: the penalty breakdown
/// and, when the collection bonus moved, the new band.
#[derive(Debug)]
pub struct EmergencyUnstakeOutcome {
    pub unstaked: EmergencyUnstaked,
    pub collection: Option<CollectionBonusUpdated>,
}

} // verus!
