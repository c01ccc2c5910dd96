pub mod chaos;
pub mod oracle_price;
pub mod oracle_config;
pub mod oracle_provider;
pub mod pyth;
