//! The computation engines: reward-emission scheduling, tick crossing, and
//! liquidity-modification orchestration. Every function here is pure: it
//! maps a state snapshot and inputs to a fully computed update record (or an
//! error), and the caller applies the record through the state containers'
//! mutators.

pub mod liquidity_manager;
pub mod pool_manager;
pub mod position_manager;
pub mod tick_manager;
