//! Client logic for a template-distribution session: the decisions taken on each
//! message exchanged with a template provider, the aggregation of transaction
//! output values, and the client's configuration values.
pub mod amount;
pub mod builder;
pub mod config;
pub mod session;
pub mod transactions;
