//! Accounting and pricing core of a concentrated-liquidity market maker: Q64.64 fixed-point
//! arithmetic, square-root prices of ticks, tick arrays and the walk a swap makes through
//! them, and the growth accumulators from which each position's fees and rewards are
//! settled.

pub mod config;
pub mod errors;
pub mod fee_tier;
pub mod manager;
pub mod math;
pub mod position;
pub mod presale;
pub mod pubkey;
pub mod settlement;
pub mod swap_tick_sequence;
pub mod tick;
pub mod tick_manager;
pub mod tick_math;
pub mod util;
pub mod yevepool;
