//! The lending pools.
pub mod admin;
pub mod flash;
pub mod insurance;
pub mod liquidation;
pub mod loans;
pub mod plan_yield;
pub mod pools;
pub mod rates;
pub mod refinance;
pub mod rewards;
pub mod state;
pub mod types;
