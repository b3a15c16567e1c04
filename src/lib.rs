//! The core of a SQL query gateway: admitting a query, normalizing what an
//! engine returns into exactly one row-batch or a typed error, and the reply
//! that each outcome gets.

pub mod config;
pub mod error;
pub mod query;
pub mod response;
