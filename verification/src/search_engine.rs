//! The query path of an index and what keeps an index alive.

pub mod autocommit;
pub mod engine;
pub mod index_holder;
pub mod index_updater;
pub mod lifecycle;
pub mod scorers;
