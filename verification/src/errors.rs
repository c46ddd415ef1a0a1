use vstd::prelude::*;

verus! {

/// Error of `tantivy::query::QueryParser::parse_query`, carried through
/// without being inspected.
#[verifier::external_type_specification]
#[verifier::external_body]
pub struct ExQueryParserError(tantivy::query::QueryParserError);

/// Error of the index engine, carried through without being inspected.
#[verifier::external_type_specification]
#[verifier::external_body]
pub struct ExTantivyError(tantivy::TantivyError);

/// Error of `fasteval2::Parser::parse`, carried through without being
/// inspected.
#[verifier::external_type_specification]
#[verifier::external_body]
pub struct ExFastEvalError(fasteval2::Error);

/// Error of awaiting a `tokio::task::JoinHandle`: the task panicked or was
/// cancelled. Carried through without being inspected.
#[verifier::external_type_specification]
#[verifier::external_body]
pub struct ExJoinError(tokio::task::JoinError);

/// Error of reading or writing storage, carried through without being
/// inspected.
#[verifier::external_type_specification]
#[verifier::external_body]
pub struct ExIoError(std::io::Error);

/// Everything that an operation on an index can fail with.
#[derive(Debug)]
pub enum SummaError {
    /// The query is malformed; holds the parser's complaint and the query
    /// text as it was given.
    InvalidSyntaxError((tantivy::query::QueryParserError, String)),
    /// A ranking expression names a variable that is neither reserved nor a
    /// field of the schema; holds that name.
    FieldDoesNotExist(String),
    /// A ranking expression is malformed.
    FastEvalError(fasteval2::Error),
    /// The page that is asked for, with what lies before it, is more than
    /// the engine can reserve room for.
    WindowTooLarge,
    /// A field that queries search when they name none is no field of the
    /// schema; holds the number of that field.
    DefaultFieldDoesNotExist(u32),
    /// A stored date lies outside the years that can be written out; holds
    /// the date in seconds since the epoch.
    DateOutOfRange(i64),
    /// The index engine reported a failure.
    EngineFailure(tantivy::TantivyError),
    /// Storage could not be read, written or removed.
    IoError(std::io::Error),
    /// A background task panicked or was cancelled.
    TaskFailure(tokio::task::JoinError),
    /// The shutdown signal reached no receiver.
    ShutdownFailure,
}

pub type SummaResult<T> = Result<T, SummaError>;

} // verus!
