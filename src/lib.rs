//! Request authorization and usage metering for the translation API: a cache of
//! validated credentials, a prepaid credit ledger, and a usage aggregator whose
//! merges never lose or invent a counter.

pub mod auth;
pub mod billing;
pub mod config;
pub mod ids;
pub mod keys;
pub mod ledger;
pub mod models;
pub mod requests;
pub mod usage;
