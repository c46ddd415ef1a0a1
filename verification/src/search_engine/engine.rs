use vstd::prelude::*;
use tantivy::collector::TopDocs;
use tantivy::query::{QueryParser, QueryParserError};
use tantivy::schema::{Field, Schema, Value};
use tantivy::{DocAddress, Index, IndexReader, LeasedItem, Searcher, TantivyError};

verus! {

/// The engine's handle of one index.
#[verifier::external_type_specification]
#[verifier::external_body]
pub struct ExIndex(tantivy::Index);

/// The engine's source of searchers of one index.
#[verifier::external_type_specification]
#[verifier::external_body]
pub struct ExIndexReader(tantivy::IndexReader);

/// The engine's view of an index at one point in time.
#[verifier::external_type_specification]
#[verifier::external_body]
pub struct ExSearcher(tantivy::Searcher);

/// What the engine lends from a pool, here a searcher.
#[verifier::external_type_specification]
#[verifier::external_body]
#[verifier::reject_recursive_types(T)]
pub struct ExLeasedItem<T>(tantivy::LeasedItem<T>);

/// The engine's list of the named, typed fields of an index.
#[verifier::external_type_specification]
#[verifier::external_body]
pub struct ExSchema(tantivy::schema::Schema);

/// The names of the fields of a schema.
pub uninterp spec fn spec_schema_fields(schema: Schema) -> Set<Seq<char>>;

/// The names of the fields that an index was created with.
pub uninterp spec fn spec_index_fields(index: Index) -> Set<Seq<char>>;

/// The number of fields of the schema of the index that a searcher looks
/// at. The fields are numbered from zero.
pub uninterp spec fn spec_field_count(searcher: LeasedItem<Searcher>) -> nat;

/// The stored values of each document that a searcher can hand out, by the
/// document's segment ordinal and id: for each value in its order, its
/// seconds since the epoch where it is a date, and nothing where it is not.
pub uninterp spec fn spec_stored_dates(searcher: LeasedItem<Searcher>) -> Map<
    (u32, u32),
    Seq<Option<i64>>,
>;

/// The stored fields of each document that a searcher can hand out, written
/// out as a JSON object, by the document's segment ordinal and id.
pub uninterp spec fn spec_stored_texts(searcher: LeasedItem<Searcher>) -> Map<
    (u32, u32),
    Seq<char>,
>;

/// The first second of the year 0, in seconds since the epoch.
pub const FIRST_ENCODABLE_DATE: i64 = -62_167_219_200;

/// The last second of the year 9999, in seconds since the epoch.
pub const LAST_ENCODABLE_DATE: i64 = 253_402_300_799;

/// Whether a date can be written out: the years 0 to 9999 can.
pub open spec fn spec_date_encodable(date: i64) -> bool {
    FIRST_ENCODABLE_DATE <= date <= LAST_ENCODABLE_DATE
}

/// Whether every date among the stored values of a document can be written
/// out.
pub open spec fn spec_dates_encodable(dates: Seq<Option<i64>>) -> bool {
    forall|k: int|
        0 <= k < dates.len() ==> ((#[trigger] dates[k]) matches Some(date) ==> spec_date_encodable(
            date,
        ))
}

/// Why the engine gave no matches for a query.
pub enum SearchFailure {
    /// The parser turned the query down, which names a field that the
    /// schema lacks; holds that name. The query was not run.
    FieldDoesNotExist(String),
    /// Any other complaint of the parser. The query was not run.
    Rejected(QueryParserError),
    /// The query was parsed, and running it failed.
    Engine(TantivyError),
}

/// One ranked match: its score and where the document is stored.
#[derive(Clone, Copy, Debug)]
pub struct Hit {
    /// The relevance score as the bit pattern of a 32-bit IEEE 754 number.
    pub score_bits: u32,
    pub segment_ord: u32,
    pub doc_id: u32,
}

/// `Schema::get_field`: whether the schema has a field of exactly this name.
#[verifier::external_body]
pub(crate) fn schema_has_field(schema: &Schema, field_name: &str) -> (found: bool)
    ensures
        found == spec_schema_fields(*schema).contains(field_name@),
{
    schema.get_field(field_name).is_some()
}

/// `Schema::clone`: the copy is the schema that it was made from; both share
/// one list of fields.
#[verifier::external_body]
pub(crate) fn clone_schema(schema: &Schema) -> (copy: Schema)
    ensures
        copy == *schema,
{
    schema.clone()
}

/// `Index::schema`: a copy of the schema that the index was created with.
#[verifier::external_body]
pub(crate) fn index_schema(index: &Index) -> (schema: Schema)
    ensures
        spec_schema_fields(schema) == spec_index_fields(*index),
{
    index.schema()
}

/// `IndexReader::searcher`: a point-in-time snapshot of the index. Nothing
/// is claimed of it.
#[verifier::external_body]
pub(crate) fn acquire_searcher(index_reader: &IndexReader) -> LeasedItem<Searcher> {
    index_reader.searcher()
}

/// `Searcher::schema` and `Schema::num_fields`: how many fields the schema
/// has that the searcher's index was created with.
#[verifier::external_body]
pub(crate) fn field_count(searcher: &LeasedItem<Searcher>) -> (count: usize)
    ensures
        count == spec_field_count(*searcher),
{
    searcher.schema().num_fields()
}

/// `QueryParser::for_index` on the searcher's own index, `parse_query`, and
/// `Searcher::search` with a `TopDocs` collector of `fetch` documents behind
/// the first `offset`. A query that the parser turns down is not run. The
/// parser looks every default field up in the schema by its number, which
/// must be one of the schema's. The collector refuses a `fetch` of zero and
/// reserves room for `fetch + offset` entries of eight bytes, which must be
/// a size that an allocation may have. It hands back at most `fetch`
/// matches, each of a document of this searcher. Which outcome comes back is
/// the engine's decision.
#[verifier::external_body]
pub(crate) fn ranked_matches(
    searcher: &LeasedItem<Searcher>,
    default_fields: &Vec<u32>,
    query: &str,
    fetch: usize,
    offset: usize,
) -> (found: Result<Vec<Hit>, SearchFailure>)
    requires
        forall|i: int| 0 <= i < default_fields.len() ==> default_fields[i] < spec_field_count(*searcher),
        1 <= fetch,
        (fetch + offset) * 8 <= isize::MAX,
    ensures
        found matches Ok(hits) ==> {
            &&& hits.len() <= fetch
            &&& forall|i: int|
                0 <= i < hits.len() ==> spec_stored_texts(*searcher).dom().contains(
                    (#[trigger] hits[i].segment_ord, hits[i].doc_id),
                )
        },
{
    let fields = default_fields.iter().map(|field_id| Field::from_field_id(*field_id)).collect();
    match QueryParser::for_index(searcher.index(), fields).parse_query(query) {
        Ok(parsed) => match searcher.search(&parsed, &TopDocs::with_limit(fetch).and_offset(offset)) {
            Ok(ranked) => Ok(ranked.into_iter().map(|(score, address)| Hit { score_bits: score.to_bits(), segment_ord: address.segment_ord, doc_id: address.doc_id }).collect()),
            Err(failure) => Err(SearchFailure::Engine(failure)),
        },
        Err(QueryParserError::FieldDoesNotExist(field)) => Err(SearchFailure::FieldDoesNotExist(field)),
        Err(complaint) => Err(SearchFailure::Rejected(complaint)),
    }
}

/// `Searcher::doc`, `Document::field_values` and
/// `DateTime::into_unix_timestamp`: for each stored value of one document of
/// the searcher, its seconds since the epoch where it is a date.
#[verifier::external_body]
pub(crate) fn stored_dates(searcher: &LeasedItem<Searcher>, hit: &Hit) -> (loaded: Result<
    Vec<Option<i64>>,
    TantivyError,
>)
    requires
        spec_stored_texts(*searcher).dom().contains((hit.segment_ord, hit.doc_id)),
    ensures
        loaded matches Ok(dates) ==> dates@ == spec_stored_dates(*searcher)[(
            hit.segment_ord,
            hit.doc_id,
        )],
{
    let document = searcher.doc(DocAddress::new(hit.segment_ord, hit.doc_id))?;
    Ok(document.field_values().iter().map(|field_value| match field_value.value() {
        Value::Date(date) => Some(date.into_unix_timestamp()),
        _ => None,
    }).collect())
}

/// `Searcher::doc` and `Schema::to_json`: the stored fields of one document
/// of the searcher, written out with the searcher's own schema. A date is
/// written as the standard for dates on the Internet has it, which takes the
/// years 0 to 9999 only: the encoder panics on any other date.
#[verifier::external_body]
pub(crate) fn stored_document_json(searcher: &LeasedItem<Searcher>, hit: &Hit) -> (loaded: Result<
    String,
    TantivyError,
>)
    requires
        spec_stored_texts(*searcher).dom().contains((hit.segment_ord, hit.doc_id)),
        spec_dates_encodable(spec_stored_dates(*searcher)[(hit.segment_ord, hit.doc_id)]),
    ensures
        loaded matches Ok(text) ==> text@ == spec_stored_texts(*searcher)[(
            hit.segment_ord,
            hit.doc_id,
        )],
{
    let document = searcher.doc(DocAddress::new(hit.segment_ord, hit.doc_id))?;
    Ok(searcher.schema().to_json(&document))
}

} // verus!
