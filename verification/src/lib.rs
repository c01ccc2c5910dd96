//! Verified core of the Autara lending protocol: fixed-point arithmetic,
//! share accounting, interest-rate curves, oracle rates, positions, markets
//! and liquidations.
pub mod constant;
pub mod error;
pub mod event;
pub mod math;
pub mod interest_rate;
pub mod laws;
pub mod ixs;
pub mod oracle;
pub mod operation;
pub mod pda;
pub mod pubkey;
pub mod state;
pub mod token;
pub mod liquidator;
