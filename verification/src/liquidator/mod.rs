pub mod config;
pub mod scanner;
pub mod router;
pub mod propamm;
pub mod runner;
