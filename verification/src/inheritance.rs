//! The inheritance contract: plans, their beneficiaries and claims, and what
//! surrounds them.
pub mod admin;
pub mod beneficiaries;
pub mod claims;
pub mod disputes;
pub mod emergency;
pub mod hashing;
pub mod kyc;
pub mod messages;
pub mod notices;
pub mod plans;
pub mod state;
pub mod triggers;
pub mod types;
pub mod wills;
pub mod yield_math;
pub mod yields;
