//! Lifecycle of named full-text search indices: result paging and the
//! leniency policy of the query path, validation of ranking expressions,
//! commit scheduling, orderly teardown and shutdown signalling.

pub mod application;
pub mod configs;
pub mod errors;
pub mod proto;
pub mod search_engine;
pub mod utils;
