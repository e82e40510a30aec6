pub mod gateway;
pub mod ledger;
pub mod types;
