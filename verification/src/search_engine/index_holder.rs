use vstd::prelude::*;
use tantivy::schema::Schema;
use tantivy::{Index, IndexReader, LeasedItem, Searcher};
use crate::errors::{SummaError, SummaResult};
use crate::proto::{ScoredDocument, SearchResponse};
use crate::search_engine::engine::{
    acquire_searcher, field_count, index_schema, ranked_matches, spec_date_encodable,
    spec_dates_encodable, spec_field_count, spec_index_fields, spec_schema_fields,
    spec_stored_dates, spec_stored_texts, stored_dates, stored_document_json, Hit, SearchFailure,
    FIRST_ENCODABLE_DATE, LAST_ENCODABLE_DATE,
};

verus! {

/// How many of `found` ranked matches a page of at most `limit` shows.
pub open spec fn spec_page_len(found: nat, limit: nat) -> nat {
    if found < limit {
        found
    } else {
        limit
    }
}

/// Whether the engine can reserve room for the matches of a page of `limit`
/// behind the first `offset`: for each of them and for one more, eight bytes,
/// in one allocation.
pub open spec fn spec_window_fits(limit: usize, offset: usize) -> bool {
    (limit + 1 + offset) * 8 <= isize::MAX
}

/// The documents of a page that shows `documents`, the stored fields of
/// the first matches of `top_docs` in their order: each with the score of
/// its match and with its place in the page, counted from zero.
pub open spec fn spec_scored_documents(top_docs: Seq<Hit>, documents: Seq<String>) -> Seq<
    ScoredDocument,
> {
    Seq::new(
        documents.len(),
        |i: int|
            ScoredDocument {
                document: documents[i],
                score_bits: top_docs[i].score_bits,
                position: i as usize,
            },
    )
}

/// Whether `answer` is the answer to a query that the engine gave no
/// matches for: a query on a field that does not exist matches nothing and is
/// not an error, any other complaint of the parser is handed on together with
/// the text of the query, and so is a failure of the engine.
pub open spec fn spec_lenient(
    index_name: Seq<char>,
    failure: SearchFailure,
    query: Seq<char>,
    answer: SummaResult<SearchResponse>,
) -> bool {
    match failure {
        SearchFailure::FieldDoesNotExist(_) => {
            &&& answer matches Ok(response)
            &&& response.index_name@ == index_name
            &&& response.scored_documents@ == Seq::<ScoredDocument>::empty()
            &&& !response.has_next
        },
        SearchFailure::Rejected(complaint) => {
            &&& answer matches Err(SummaError::InvalidSyntaxError(rejected))
            &&& rejected.0 == complaint
            &&& rejected.1@ == query
        },
        SearchFailure::Engine(engine_failure) => answer == Err::<SearchResponse, SummaError>(
            SummaError::EngineFailure(engine_failure),
        ),
    }
}

/// The answer to a query that the engine gave no matches for: a query on
/// a field that does not exist matches nothing and is not an error, any other
/// complaint of the parser is handed on together with the text of the query,
/// and so is a failure of the engine.
pub fn lenient_response(index_name: &str, failure: SearchFailure, query: &str) -> (answer:
    SummaResult<SearchResponse>)
    ensures
        spec_lenient(index_name@, failure, query@, answer),
{
    match failure {
        SearchFailure::FieldDoesNotExist(_) => Ok(
            SearchResponse {
                index_name: index_name.to_owned(),
                scored_documents: Vec::new(),
                has_next: false,
            },
        ),
        SearchFailure::Rejected(complaint) => Err(
            SummaError::InvalidSyntaxError((complaint, query.to_owned())),
        ),
        SearchFailure::Engine(engine_failure) => Err(SummaError::EngineFailure(engine_failure)),
    }
}

/// Whether each of `found` is a document that `searcher` can hand out.
pub open spec fn spec_matches_stored(searcher: LeasedItem<Searcher>, found: Seq<Hit>) -> bool {
    forall|i: int|
        0 <= i < found.len() ==> spec_stored_texts(searcher).dom().contains(
            (#[trigger] found[i].segment_ord, found[i].doc_id),
        )
}

/// The stored fields of the match `hit`, as `searcher` hands them out.
pub open spec fn spec_text_of(searcher: LeasedItem<Searcher>, hit: Hit) -> Seq<char> {
    spec_stored_texts(searcher)[(hit.segment_ord, hit.doc_id)]
}

/// Whether the number `field` numbers no field of a schema of
/// `field_count` fields.
pub open spec fn spec_field_missing(field: u32, field_count: nat) -> bool {
    field >= field_count
}

/// The place `i` of `default_fields` holds the first number that numbers no
/// field.
pub open spec fn first_missing_field_at(default_fields: Seq<u32>, field_count: nat, i: int) -> bool {
    &&& 0 <= i < default_fields.len()
    &&& spec_field_missing(default_fields[i], field_count)
    &&& forall|j: int| 0 <= j < i ==> !spec_field_missing(#[trigger] default_fields[j], field_count)
}

/// Whether every number of `default_fields` numbers a field.
pub open spec fn spec_default_fields_exist(default_fields: Seq<u32>, field_count: nat) -> bool {
    forall|i: int|
        0 <= i < default_fields.len() ==> !spec_field_missing(
            #[trigger] default_fields[i],
            field_count,
        )
}

/// The place `k` of `dates` holds the first date that cannot be written
/// out.
pub open spec fn first_bad_date_at(dates: Seq<Option<i64>>, k: int) -> bool {
    &&& 0 <= k < dates.len()
    &&& dates[k] matches Some(date) && !spec_date_encodable(date)
    &&& forall|j: int|
        0 <= j < k ==> ((#[trigger] dates[j]) matches Some(date) ==> spec_date_encodable(date))
}

/// Whether `response` is the page that shows the matches `found`, which
/// came back when `limit + 1` were asked for: the first `limit` of them at
/// most, each with its score, with its stored fields as `searcher` hands them
/// out, and with its place in the page; and whether one more came back.
pub open spec fn spec_shows(
    searcher: LeasedItem<Searcher>,
    found: Seq<Hit>,
    limit: usize,
    response: SearchResponse,
) -> bool {
    &&& found.len() <= limit + 1
    &&& spec_matches_stored(searcher, found)
    &&& response.scored_documents.len() == spec_page_len(found.len(), limit as nat)
    &&& response.has_next == (found.len() > limit)
    &&& forall|i: int|
        0 <= i < response.scored_documents.len() ==> {
            &&& (#[trigger] response.scored_documents[i]).document@ == spec_text_of(
                searcher,
                found[i],
            )
            &&& response.scored_documents[i].score_bits == found[i].score_bits
            &&& response.scored_documents[i].position == i
        }
}

/// How many matches are asked for to fill a page of `limit`: one more than
/// the page shows, which tells whether a further page exists.
pub fn fetch_count(limit: usize) -> (fetch: usize)
    requires
        limit < usize::MAX,
    ensures
        fetch == limit + 1,
{
    limit + 1
}

/// Holds the fields that a query searches when it names none against a
/// schema of `field_count` fields. The first number that numbers no field is
/// an error.
pub fn check_default_fields(default_fields: &Vec<u32>, field_count: usize) -> (checked: SummaResult<
    (),
>)
    ensures
        spec_default_fields_exist(default_fields@, field_count as nat) <==> checked is Ok,
        checked matches Err(failure) ==> {
            &&& failure matches SummaError::DefaultFieldDoesNotExist(field)
            &&& exists|i: int|
                first_missing_field_at(default_fields@, field_count as nat, i) && default_fields[i]
                    == field
        },
{
    let mut i: usize = 0;
    while i < default_fields.len()
        invariant
            i <= default_fields.len(),
            forall|j: int|
                0 <= j < i ==> !spec_field_missing(#[trigger] default_fields[j], field_count as nat),
        decreases default_fields.len() - i,
    {
        let field: u32 = default_fields[i];
        if field as usize >= field_count {
            assert(first_missing_field_at(default_fields@, field_count as nat, i as int));
            return Err(SummaError::DefaultFieldDoesNotExist(field));
        }
        i += 1;
    }
    Ok(())
}

/// Holds the stored values of one document against the years that can be
/// written out. The first date outside them is an error.
pub fn check_dates(dates: &Vec<Option<i64>>) -> (checked: SummaResult<()>)
    ensures
        spec_dates_encodable(dates@) <==> checked is Ok,
        checked matches Err(failure) ==> {
            &&& failure matches SummaError::DateOutOfRange(date)
            &&& exists|k: int| first_bad_date_at(dates@, k) && dates[k] == Some(date)
        },
{
    let mut k: usize = 0;
    while k < dates.len()
        invariant
            k <= dates.len(),
            forall|j: int|
                0 <= j < k ==> ((#[trigger] dates[j]) matches Some(date) ==> spec_date_encodable(
                    date,
                )),
        decreases dates.len() - k,
    {
        match dates[k] {
            Some(date) => {
                if date < FIRST_ENCODABLE_DATE || date > LAST_ENCODABLE_DATE {
                    assert(first_bad_date_at(dates@, k as int));
                    return Err(SummaError::DateOutOfRange(date));
                }
            },
            None => {},
        }
        k += 1;
    }
    Ok(())
}

/// Loads the stored fields of the first `count` matches of `found`, in
/// their order. A document with a date that cannot be written out is an
/// error, and so is a document that the engine fails to load. Where nothing
/// is to be loaded, nothing is asked of the engine, and nothing fails.
pub fn load_documents(searcher: &LeasedItem<Searcher>, found: &Vec<Hit>, count: usize) -> (loaded:
    SummaResult<Vec<String>>)
    requires
        count <= found.len(),
        spec_matches_stored(*searcher, found@),
    ensures
        count == 0 ==> loaded is Ok,
        match loaded {
            Ok(documents) => {
                &&& documents.len() == count
                &&& forall|i: int|
                    0 <= i < count ==> (#[trigger] documents[i])@ == spec_text_of(
                        *searcher,
                        found[i],
                    )
                &&& forall|i: int|
                    0 <= i < count ==> spec_dates_encodable(
                        #[trigger] spec_stored_dates(*searcher)[(
                            found[i].segment_ord,
                            found[i].doc_id,
                        )],
                    )
            },
            Err(SummaError::DateOutOfRange(date)) => exists|i: int, k: int|
                0 <= i < count && #[trigger] first_bad_date_at(
                    spec_stored_dates(*searcher)[(found[i].segment_ord, found[i].doc_id)],
                    k,
                ) && spec_stored_dates(*searcher)[(found[i].segment_ord, found[i].doc_id)][k]
                    == Some(date),
            Err(SummaError::EngineFailure(_)) => true,
            Err(_) => false,
        },
{
    let mut documents: Vec<String> = Vec::new();
    while documents.len() < count
        invariant
            count <= found.len(),
            documents.len() <= count,
            spec_matches_stored(*searcher, found@),
            forall|i: int|
                0 <= i < documents.len() ==> (#[trigger] documents[i])@ == spec_text_of(
                    *searcher,
                    found[i],
                ),
            forall|i: int|
                0 <= i < documents.len() ==> spec_dates_encodable(
                    #[trigger] spec_stored_dates(*searcher)[(
                        found[i].segment_ord,
                        found[i].doc_id,
                    )],
                ),
        decreases count - documents.len(),
    {
        let at: usize = documents.len();
        let hit: &Hit = &found[at];
        let dates = match stored_dates(searcher, hit) {
            Ok(dates) => dates,
            Err(failure) => {
                return Err(SummaError::EngineFailure(failure));
            },
        };
        match check_dates(&dates) {
            Ok(_) => {},
            Err(failure) => {
                proof {
                    let date = failure->DateOutOfRange_0;
                    let k = choose|k: int| first_bad_date_at(dates@, k) && dates[k] == Some(date);
                    assert(first_bad_date_at(
                        spec_stored_dates(*searcher)[(found[at as int].segment_ord, found[at as int].doc_id)],
                        k,
                    ));
                }
                return Err(failure);
            },
        }
        match stored_document_json(searcher, hit) {
            Ok(document) => documents.push(document),
            Err(failure) => {
                return Err(SummaError::EngineFailure(failure));
            },
        }
    }
    Ok(documents)
}

/// Lays out one page. `top_docs` are the ranked matches that came back when
/// `limit + 1` were asked for, `documents` the stored fields of those that
/// the page shows. One match more than `limit` tells that a further page
/// exists; it is not shown.
pub fn assemble_response(
    index_name: &str,
    top_docs: &Vec<Hit>,
    documents: Vec<String>,
    limit: usize,
) -> (response: SearchResponse)
    requires
        top_docs.len() <= limit + 1,
        documents.len() == spec_page_len(top_docs.len() as nat, limit as nat),
    ensures
        response.index_name@ == index_name@,
        response.scored_documents@ == spec_scored_documents(top_docs@, documents@),
        response.has_next == (top_docs.len() > limit),
        response.has_next ==> top_docs.len() == limit + 1,
        response.well_formed(limit),
{
    let mut scored_documents: Vec<ScoredDocument> = Vec::new();
    for document in iter: documents
        invariant
            scored_documents.len() == iter.index(),
            iter.seq().len() <= top_docs.len(),
            scored_documents@ == spec_scored_documents(top_docs@, iter.seq().take(iter.index())),
    {
        let position: usize = scored_documents.len();
        scored_documents.push(
            ScoredDocument { document, score_bits: top_docs[position].score_bits, position },
        );
    }
    assert(documents@.take(documents.len() as int) == documents@);
    SearchResponse {
        index_name: index_name.to_owned(),
        scored_documents,
        has_next: top_docs.len() > limit,
    }
}

/// One live index: its name, its schema, and the engine's handles that
/// queries run on.
pub struct IndexHolder {
    index_name: String,
    schema: Schema,
    index: Index,
    default_fields: Vec<u32>,
    index_reader: IndexReader,
}

/// The date `date` is the first that cannot be written out among the stored
/// values of one of the first `count` matches of `found`.
pub open spec fn spec_bad_date_among(
    searcher: LeasedItem<Searcher>,
    found: Seq<Hit>,
    count: nat,
    date: i64,
) -> bool {
    exists|i: int, k: int|
        0 <= i < count && #[trigger] first_bad_date_at(
            spec_stored_dates(searcher)[(found[i].segment_ord, found[i].doc_id)],
            k,
        ) && spec_stored_dates(searcher)[(found[i].segment_ord, found[i].doc_id)][k] == Some(date)
}

/// Whether `answer` is an answer to a query, given what the engine made of
/// it. Where the engine gave matches, the answer is the page that shows
/// them, unless a document of the page cannot be loaded or holds a date that
/// cannot be written out; a page that shows nothing cannot fail. Where the
/// engine gave none, see `spec_lenient`.
pub open spec fn spec_answer_for(
    searcher: LeasedItem<Searcher>,
    index_name: Seq<char>,
    query: Seq<char>,
    limit: usize,
    outcome: Result<Vec<Hit>, SearchFailure>,
    answer: SummaResult<SearchResponse>,
) -> bool {
    match outcome {
        Ok(found) => match answer {
            Ok(response) => {
                &&& response.index_name@ == index_name
                &&& response.well_formed(limit)
                &&& spec_shows(searcher, found@, limit, response)
            },
            Err(SummaError::DateOutOfRange(date)) => spec_bad_date_among(
                searcher,
                found@,
                spec_page_len(found.len() as nat, limit as nat),
                date,
            ),
            Err(SummaError::EngineFailure(_)) => spec_page_len(found.len() as nat, limit as nat)
                > 0,
            Err(_) => false,
        },
        Err(failure) => spec_lenient(index_name, failure, query, answer),
    }
}

/// The answer to a query, given what the engine made of it: `outcome` is
/// what came back when `limit + 1` matches were asked for. The first `limit`
/// matches at most are shown, each with the stored fields of its document,
/// which are loaded here; one match more tells that a further page exists.
pub fn answer_for(
    searcher: &LeasedItem<Searcher>,
    index_name: &str,
    query: &str,
    limit: usize,
    outcome: Result<Vec<Hit>, SearchFailure>,
) -> (answer: SummaResult<SearchResponse>)
    requires
        outcome matches Ok(found) ==> found.len() <= limit + 1 && spec_matches_stored(
            *searcher,
            found@,
        ),
    ensures
        spec_answer_for(*searcher, index_name@, query@, limit, outcome, answer),
{
    let found = match outcome {
        Ok(found) => found,
        Err(failure) => {
            return lenient_response(index_name, failure, query);
        },
    };
    let right_bound: usize = if found.len() < limit {
        found.len()
    } else {
        limit
    };
    let documents = match load_documents(searcher, &found, right_bound) {
        Ok(documents) => documents,
        Err(failure) => {
            return Err(failure);
        },
    };
    let ghost texts = documents@;
    let response = assemble_response(index_name, &found, documents, limit);
    proof {
        assert forall|i: int| 0 <= i < response.scored_documents.len() implies {
            &&& (#[trigger] response.scored_documents[i]).document@ == spec_text_of(
                *searcher,
                found[i],
            )
            &&& response.scored_documents[i].score_bits == found[i].score_bits
            &&& response.scored_documents[i].position == i
        } by {
            assert(response.scored_documents[i] == spec_scored_documents(found@, texts)[i]);
            assert(texts[i]@ == spec_text_of(*searcher, found[i]));
        }
    }
    Ok(response)
}

/// What a query on one snapshot of an index may end with, once it was
/// handed to the engine. A page shows matches that the engine ranked, each
/// with the stored fields of its own document. A query is turned down with
/// its text. A date that cannot be written out is one that a document of the
/// snapshot holds.
pub open spec fn spec_answers(
    searcher: LeasedItem<Searcher>,
    index_name: Seq<char>,
    query: Seq<char>,
    limit: usize,
    answer: SummaResult<SearchResponse>,
) -> bool {
    match answer {
        Ok(response) => {
            &&& response.index_name@ == index_name
            &&& response.well_formed(limit)
            &&& exists|found: Seq<Hit>| spec_shows(searcher, found, limit, response)
        },
        Err(SummaError::InvalidSyntaxError(rejected)) => rejected.1@ == query,
        Err(SummaError::DateOutOfRange(date)) => exists|address: (u32, u32), k: int|
            spec_stored_texts(searcher).dom().contains(address) && #[trigger] first_bad_date_at(
                spec_stored_dates(searcher)[address],
                k,
            ) && spec_stored_dates(searcher)[address][k] == Some(date),
        Err(SummaError::EngineFailure(_)) => true,
        Err(_) => false,
    }
}

/// What a query on one snapshot of an index ends with. A page that, with
/// what lies before it, is more than the engine can reserve room for is an
/// error. So is the first of the fields that the query searches when it
/// names none that is no field of the snapshot's schema. In both cases
/// nothing is asked of the engine. Otherwise see `spec_answers`.
pub open spec fn spec_snapshot_answers(
    searcher: LeasedItem<Searcher>,
    index_name: Seq<char>,
    default_fields: Seq<u32>,
    query: Seq<char>,
    limit: usize,
    offset: usize,
    answer: SummaResult<SearchResponse>,
) -> bool {
    if !spec_window_fits(limit, offset) {
        answer matches Err(SummaError::WindowTooLarge)
    } else if !spec_default_fields_exist(default_fields, spec_field_count(searcher)) {
        &&& answer matches Err(SummaError::DefaultFieldDoesNotExist(field))
        &&& exists|i: int|
            first_missing_field_at(default_fields, spec_field_count(searcher), i)
                && default_fields[i] == field
    } else {
        spec_answers(searcher, index_name, query, limit, answer)
    }
}

/// Runs `query` on one snapshot of an index and shows the matches from
/// `offset` on, at most `limit` of them. The page must be one that the
/// engine can reserve room for, and the fields that the query searches when
/// it names none must be fields of the snapshot's schema; else the answer is
/// an error, and nothing is asked of the engine. One match more than `limit`
/// is asked for, to learn whether a further page exists. What the engine
/// makes of the query is handed to `answer_for`.
pub fn search_snapshot(
    searcher: &LeasedItem<Searcher>,
    index_name: &str,
    default_fields: &Vec<u32>,
    query: &str,
    limit: usize,
    offset: usize,
) -> (answer: SummaResult<SearchResponse>)
    ensures
        spec_snapshot_answers(
            *searcher,
            index_name@,
            default_fields@,
            query@,
            limit,
            offset,
            answer,
        ),
{
    if !IndexHolder::window_fits(limit, offset) {
        return Err(SummaError::WindowTooLarge);
    }
    match check_default_fields(default_fields, field_count(searcher)) {
        Ok(_) => {},
        Err(failure) => {
            return Err(failure);
        },
    }
    let outcome = ranked_matches(searcher, default_fields, query, fetch_count(limit), offset);
    let ghost given = outcome;
    let answer = answer_for(searcher, index_name, query, limit, outcome);
    proof {
        match given {
            Ok(found) => {
                if answer is Ok {
                    assert(spec_shows(*searcher, found@, limit, answer->Ok_0));
                } else if answer->Err_0 is DateOutOfRange {
                    let date = answer->Err_0->DateOutOfRange_0;
                    let (i, k) = choose|i: int, k: int|
                        0 <= i < spec_page_len(found.len() as nat, limit as nat)
                            && #[trigger] first_bad_date_at(
                            spec_stored_dates(*searcher)[(found[i].segment_ord, found[i].doc_id)],
                            k,
                        ) && spec_stored_dates(*searcher)[(found[i].segment_ord, found[i].doc_id)][k]
                            == Some(date);
                    let address = (found[i].segment_ord, found[i].doc_id);
                    assert(spec_stored_texts(*searcher).dom().contains(address));
                    assert(first_bad_date_at(spec_stored_dates(*searcher)[address], k));
                }
            },
            Err(failure) => {
                if answer is Ok {
                    assert(spec_shows(*searcher, Seq::<Hit>::empty(), limit, answer->Ok_0));
                }
            },
        }
    }
    answer
}

impl IndexHolder {
    /// The name that the index is served under.
    pub closed spec fn spec_index_name(&self) -> Seq<char> {
        self.index_name@
    }

    /// The schema of the index.
    pub closed spec fn spec_schema(&self) -> Schema {
        self.schema
    }

    /// The engine's handle of the index.
    pub closed spec fn spec_index(&self) -> Index {
        self.index
    }

    /// The reader that queries see the index through.
    pub closed spec fn spec_index_reader(&self) -> IndexReader {
        self.index_reader
    }

    /// The fields that a query searches when it names none, by their
    /// numbers in the schema.
    pub closed spec fn spec_default_fields(&self) -> Seq<u32> {
        self.default_fields@
    }

    /// Whether a page of `limit` behind the first `offset` can be asked
    /// for.
    pub fn window_fits(limit: usize, offset: usize) -> (fits: bool)
        ensures
            fits == spec_window_fits(limit, offset),
    {
        let most: usize = (isize::MAX as usize) / 8;
        limit < most && offset <= most - limit - 1
    }

    /// Takes over an index that was opened, with the reader that its
    /// queries shall see through and the numbers of the fields that a query
    /// searches when it names none.
    pub fn attach(
        index_name: &str,
        index: Index,
        index_reader: IndexReader,
        default_fields: Vec<u32>,
    ) -> (holder: IndexHolder)
        ensures
            holder.spec_index_name() == index_name@,
            holder.spec_index() == index,
            holder.spec_index_reader() == index_reader,
            holder.spec_default_fields() == default_fields@,
            spec_schema_fields(holder.spec_schema()) == spec_index_fields(index),
    {
        let schema = index_schema(&index);
        IndexHolder { index_name: index_name.to_owned(), schema, index, default_fields, index_reader }
    }

    pub fn index_name(&self) -> (index_name: &str)
        ensures
            index_name@ == self.spec_index_name(),
    {
        self.index_name.as_str()
    }

    pub fn schema(&self) -> (schema: &Schema)
        ensures
            *schema == self.spec_schema(),
    {
        &self.schema
    }

    pub fn default_fields(&self) -> (default_fields: &Vec<u32>)
        ensures
            default_fields@ == self.spec_default_fields(),
    {
        &self.default_fields
    }

    /// A snapshot of the index as of its last commit that the reader saw.
    pub fn searcher(&self) -> LeasedItem<Searcher> {
        acquire_searcher(&self.index_reader)
    }

    /// Runs `query` on a fresh snapshot of the index and shows the matches
    /// from `offset` on, at most `limit` of them. A page that the engine
    /// cannot reserve room for is an error, and no snapshot is taken. Else
    /// the answer is that of `search_snapshot` on the snapshot that the
    /// reader gave.
    pub fn search(&self, query: &str, limit: usize, offset: usize) -> (answer: SummaResult<
        SearchResponse,
    >)
        ensures
            !spec_window_fits(limit, offset) ==> answer matches Err(SummaError::WindowTooLarge),
            spec_window_fits(limit, offset) ==> exists|searcher: LeasedItem<Searcher>|
                spec_snapshot_answers(
                    searcher,
                    self.spec_index_name(),
                    self.spec_default_fields(),
                    query@,
                    limit,
                    offset,
                    answer,
                ),
            match answer {
                Ok(response) => {
                    &&& response.index_name@ == self.spec_index_name()
                    &&& response.well_formed(limit)
                },
                Err(SummaError::InvalidSyntaxError(rejected)) => rejected.1@ == query@,
                Err(SummaError::DefaultFieldDoesNotExist(field)) => self.spec_default_fields().contains(
                    field,
                ),
                Err(SummaError::DateOutOfRange(date)) => !spec_date_encodable(date),
                Err(SummaError::WindowTooLarge) => !spec_window_fits(limit, offset),
                Err(SummaError::EngineFailure(_)) => true,
                Err(_) => false,
            },
    {
        if !IndexHolder::window_fits(limit, offset) {
            return Err(SummaError::WindowTooLarge);
        }
        let searcher = acquire_searcher(&self.index_reader);
        let answer = search_snapshot(
            &searcher,
            self.index_name.as_str(),
            &self.default_fields,
            query,
            limit,
            offset,
        );
        assert(spec_snapshot_answers(
            searcher,
            self.spec_index_name(),
            self.spec_default_fields(),
            query@,
            limit,
            offset,
            answer,
        ));
        answer
    }
}

} // verus!
