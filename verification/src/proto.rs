use vstd::prelude::*;

verus! {

/// One document of a result page.
#[derive(Clone, Debug)]
pub struct ScoredDocument {
    /// The stored fields of the document, encoded as a JSON object.
    pub document: String,
    /// The relevance score as the bit pattern of a 32-bit IEEE 754 number.
    pub score_bits: u32,
    /// Zero-based position of the document within its page.
    pub position: usize,
}

/// One page of results of a query on one index.
#[derive(Clone, Debug)]
pub struct SearchResponse {
    pub index_name: String,
    pub scored_documents: Vec<ScoredDocument>,
    /// Whether the query matches more documents behind this page.
    pub has_next: bool,
}

impl SearchResponse {
    /// Positions count up from zero, and the page holds at most `limit`
    /// documents; a page that announces a successor is full.
    pub open spec fn well_formed(&self, limit: usize) -> bool {
        &&& self.scored_documents.len() <= limit
        &&& self.has_next ==> self.scored_documents.len() == limit
        &&& forall|i: int|
            0 <= i < self.scored_documents.len() ==> (#[trigger] self.scored_documents[i]).position
                == i
    }
}

} // verus!
