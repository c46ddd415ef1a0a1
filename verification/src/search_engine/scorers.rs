//! Ranking beyond the engine's own relevance score.

pub mod eval_scorer;
pub mod expression;
pub mod field_kind;
