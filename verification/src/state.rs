use vstd::prelude::*;

verus! {

/// Number of seconds in a day; timestamps are in seconds.
pub const SECONDS_PER_DAY: u64 = 86400;

/// Number of fixed milestone thresholds a position can cross.
pub const MILESTONE_COUNT: usize = 4;

/// Whole days a position has been staked by `now`, by floor division of the
/// elapsed seconds.
pub open spec fn days_staked_of(s: StakeInfo, now: i64) -> int {
    (now - s.staked_at) / (SECONDS_PER_DAY as int)
}

/// One staked position. Identities are opaque numeric keys supplied by the
/// hosting environment (which maps its own account keys onto them).
///
/// Timestamps are seconds; `current_time_multiplier`, `compound_streak_multiplier`
/// and collection bonuses are basis points (10000 = 100%); tier multipliers are
/// parts per hundred (100 = 1x).
pub struct StakeInfo {
    /// Depositor identity, immutable after creation.
    pub owner: u64,
    /// Staked item identity, immutable after creation.
    pub mint: u64,
    /// When the position was staked.
    pub staked_at: i64,
    /// `staked_at` plus the staking period.
    pub release_date: i64,
    /// False once the position has been unstaked; terminal.
    pub is_staked: bool,
    /// Rarity tier: 0 = Common, 1 = Rare, 2 = Epic, 3 = Legendary.
    pub tier: u8,
    /// Anchor for reward accrual: rewards accrue since this time.
    pub last_claim_time: i64,
    /// Staking period in days, at least 1 while staked.
    pub staking_period: u64,
    /// Rewards folded back rather than paid out.
    pub accumulated_compound: u64,
    /// Duration-based bonus in basis points, non-decreasing while staked.
    pub current_time_multiplier: u64,
    /// When `current_time_multiplier` last changed.
    pub last_multiplier_update: i64,
    /// One flag per milestone threshold; set once, never cleared while staked.
    pub milestones_achieved: Vec<bool>,
    /// Smallest unattained milestone threshold in days, or 0 for none left.
    pub next_milestone_days: u64,
    /// 0 = daily, 1 = weekly, 2 = monthly, 255 = manual.
    pub compound_frequency: u8,
    /// When rewards were last compounded.
    pub last_compound_time: i64,
    /// Consecutive on-time compounds, saturating at the u16 ceiling.
    pub compound_streak: u16,
    /// Bonus in basis points derived from `compound_streak`, at most 1000.
    pub compound_streak_multiplier: u64,
}

impl StakeInfo {
    /// Well-formedness: timestamps are non-negative (they come from a Unix
    /// clock), the milestone flag list has one entry per threshold, the
    /// streak bonus respects its cap, and a staked position has a positive
    /// staking period.
    pub open spec fn wf(self) -> bool {
        &&& self.staked_at >= 0
        &&& self.last_claim_time >= 0
        &&& self.last_multiplier_update >= 0
        &&& self.last_compound_time >= 0
        &&& self.milestones_achieved@.len() == MILESTONE_COUNT
        &&& self.compound_streak_multiplier <= 1000
        &&& self.is_staked ==> self.staking_period >= 1
    }

    /// A fresh, never-staked record for the given owner and item.
    pub fn new(owner: u64, mint: u64) -> (r: StakeInfo)
        ensures
            r.wf(),
            !r.is_staked,
            r.owner == owner,
            r.mint == mint,
            r.accumulated_compound == 0,
            r.current_time_multiplier == 0,
            r.compound_streak == 0,
            r.compound_streak_multiplier == 0,
            forall|i: int| 0 <= i < MILESTONE_COUNT ==> !r.milestones_achieved@[i],
    {
        let mut flags: Vec<bool> = Vec::new();
        flags.push(false);
        flags.push(false);
        flags.push(false);
        flags.push(false);
        StakeInfo {
            owner,
            mint,
            staked_at: 0,
            release_date: 0,
            is_staked: false,
            tier: 0,
            last_claim_time: 0,
            staking_period: 0,
            accumulated_compound: 0,
            current_time_multiplier: 0,
            last_multiplier_update: 0,
            milestones_achieved: flags,
            next_milestone_days: 0,
            compound_frequency: 255,
            last_compound_time: 0,
            compound_streak: 0,
            compound_streak_multiplier: 0,
        }
    }
}

/// Shared pool configuration, owned by the administrator and read-only here.
pub struct PoolState {
    /// Pool administrator identity.
    pub admin: u64,
    /// Base reward amount per staked day.
    pub reward_rate: u64,
    /// Flat emergency fee percentage (unused by the core penalty schedule).
    pub emergency_fee_percent: u8,
    /// When true, every mutating operation is rejected.
    pub paused: bool,
    /// Total positions staked across the pool.
    pub total_staked: u64,
    /// Tier multiplier for Common, parts per hundred.
    pub common_multiplier: u64,
    /// Tier multiplier for Rare, parts per hundred.
    pub rare_multiplier: u64,
    /// Tier multiplier for Epic, parts per hundred.
    pub epic_multiplier: u64,
    /// Tier multiplier for Legendary, parts per hundred.
    pub legendary_multiplier: u64,
    /// Extra bonus for long stakes (reserved for the admin surface).
    pub long_staking_bonus: u64,
    /// Cap on concurrently staked positions per depositor.
    pub max_nfts_per_user: u8,
    /// Time-multiplier growth per completed period, basis points.
    pub time_multiplier_increment: u64,
    /// Length of one time-multiplier period in days.
    pub time_multiplier_period_days: u64,
    /// Cap on the time multiplier, basis points.
    pub max_time_multiplier: u64,
}

impl PoolState {
    /// Well-formedness: the multiplier period is a usable divisor.
    pub open spec fn wf(self) -> bool {
        self.time_multiplier_period_days >= 1
    }
}

/// Per-depositor aggregate: which items are staked and the derived
/// collection bonus.
pub struct UserStakingInfo {
    /// Depositor identity.
    pub owner: u64,
    /// Count of currently staked items; always the length of `staked_mints`.
    pub staked_count: u8,
    /// Identities of the currently staked items.
    pub staked_mints: Vec<u64>,
    /// Collection bonus in basis points, a pure function of `staked_count`.
    pub collection_bonus: u64,
}

impl UserStakingInfo {
    /// Well-formedness: the count mirrors the list, and the bonus is exactly
    /// the band function of the count.
    pub open spec fn wf(self) -> bool {
        &&& self.staked_count as int == self.staked_mints@.len()
        &&& self.collection_bonus == crate::collection::collection_bonus_of(
            self.staked_count as int,
        )
    }

    /// A fresh aggregate with nothing staked.
    pub fn new(owner: u64) -> (r: UserStakingInfo)
        ensures
            r.wf(),
            r.owner == owner,
            r.staked_count == 0,
            r.staked_mints@.len() == 0,
            r.collection_bonus == 0,
    {
        UserStakingInfo { owner, staked_count: 0, staked_mints: Vec::new(), collection_bonus: 0 }
    }
}

} // verus!
