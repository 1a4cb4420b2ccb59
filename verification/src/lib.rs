//! Verified core of the token claim contract: account records, linear
//! evaporation of unclaimed balances, claims, burns and configuration.


pub mod model;
pub mod account_record;
pub mod store;
pub mod contract;
pub mod record;
pub mod claim;
pub mod burn;
pub mod clean;
pub mod asset;
pub mod roles;
pub mod time;
pub mod migration;
pub mod test_data;
pub mod laws;
