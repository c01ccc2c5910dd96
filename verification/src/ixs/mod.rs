pub mod admin;
pub mod args;
pub mod borrow;
pub mod decode;
pub mod instruction;
pub mod liquidation;
pub mod log;
pub mod market;
pub mod supply;
pub mod types;
pub mod wire;
