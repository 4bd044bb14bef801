//! Core engine of an NFT staking reward system.
//!
//! The library computes time-varying reward accrual for staked positions and
//! drives the stake lifecycle: entry, multiplier growth, milestone bonuses,
//! reward compounding, per-depositor collection bonuses, and penalized
//! emergency exits.
//!
//! Every operation is a deterministic function of the prior record state and
//! an explicit `current_time` parameter. Durable storage, caller identity,
//! token transfers and event transport are external collaborators: the
//! functions here take the loaded records as arguments, mutate them
//! all-or-nothing, and hand back notification payloads for the transport
//! layer. No operation panics, and every arithmetic step is either proved in
//! range or surfaced as `StakingError::ArithmeticError` with no state change.

pub mod collection;
pub mod compound;
pub mod errors;
pub mod events;
pub mod lifecycle;
pub mod milestones;
pub mod multiplier;
pub mod rewards;
pub mod state;
