pub mod liquidation;
