//! Core accounting engine of a concentrated-liquidity automated market
//! maker: Q64.64 fixed-point arithmetic, reward-emission scheduling,
//! tick-crossing updates, and liquidity-modification orchestration over
//! pool, tick and position state.
//!
//! Every engine function is pure and deterministic: it maps a state
//! snapshot and plain inputs to a fully computed update record or an error,
//! and the narrow state-container mutators apply such records atomically.

pub mod address;
pub mod errors;
pub mod manager;
pub mod math;
pub mod state;
