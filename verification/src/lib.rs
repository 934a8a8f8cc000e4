//! Collateral-risk ("health") evaluation for a margin account that holds spot
//! token balances, spot-exchange open orders and perpetual-futures positions.
//!
//! The crate builds a [`health::HealthCache`] from an account's active
//! positions via an [`retriever::AccountRetriever`] and answers the initial
//! and maintenance health queries over it.

pub mod builder;
pub mod fx;
pub mod health;
pub mod laws;
pub mod records;
pub mod retriever;

pub use builder::{compute_health, compute_health_from_fixed_accounts, new_health_cache};
pub use fx::Fx;
pub use health::{HealthCache, HealthType};
pub use records::HealthError;
pub use retriever::{
    new_fixed_order_account_retriever, AccountRetriever, FixedOrderAccountRetriever,
    ScanningAccountRetriever,
};
