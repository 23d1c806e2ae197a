//! The vector store: the search that is asked of it and the matches that come
//! back.

use std::collections::HashMap;
use vstd::prelude::*;

verus! {

/// A payload value of the vector store. Nothing of its contents is known here.
#[verifier::external_type_specification]
#[verifier::external_body]
pub struct ExValue(qdrant_client::qdrant::Value);

/// A nearest-neighbour search: at most `limit` matches for `vector` from the
/// collection called `collection`, each with its payload where `with_payload`
/// is set. The components of `vector` are IEEE 754 single-precision bit
/// patterns.
#[derive(Debug, PartialEq, Eq)]
pub struct SearchRequest {
    pub collection: String,
    pub vector: Vec<u32>,
    pub limit: u64,
    pub with_payload: bool,
}

/// The mathematical model of a [`SearchRequest`].
pub struct SearchRequestView {
    pub collection: Seq<char>,
    pub vector: Seq<u32>,
    pub limit: u64,
    pub with_payload: bool,
}

impl View for SearchRequest {
    type V = SearchRequestView;

    open spec fn view(&self) -> SearchRequestView {
        SearchRequestView {
            collection: self.collection@,
            vector: self.vector@,
            limit: self.limit,
            with_payload: self.with_payload,
        }
    }
}

impl DeepView for SearchRequest {
    type V = SearchRequestView;

    open spec fn deep_view(&self) -> SearchRequestView {
        self@
    }
}

/// The search for the neighbours of `vector`, payloads included.
pub open spec fn store_request(collection: Seq<char>, vector: Seq<u32>, limit: u64) -> SearchRequestView {
    SearchRequestView { collection, vector, limit, with_payload: true }
}

/// Builds the search for the neighbours of `vector`.
pub fn search_request(collection: &str, vector: Vec<u32>, limit: u64) -> (request: SearchRequest)
    ensures
        request@ == store_request(collection@, vector@, limit),
{
    SearchRequest { collection: collection.to_owned(), vector, limit, with_payload: true }
}

/// One match: the payload of the stored point, as the text in which the store's
/// client displays it, and the similarity score as an IEEE 754 single-precision
/// bit pattern.
#[derive(Debug, PartialEq, Eq)]
pub struct SearchHit {
    pub payload: String,
    pub score_bits: u32,
}

/// The mathematical model of a [`SearchHit`].
pub struct SearchHitView {
    pub payload: Seq<char>,
    pub score_bits: u32,
}

impl View for SearchHit {
    type V = SearchHitView;

    open spec fn view(&self) -> SearchHitView {
        SearchHitView { payload: self.payload@, score_bits: self.score_bits }
    }
}

impl DeepView for SearchHit {
    type V = SearchHitView;

    open spec fn deep_view(&self) -> SearchHitView {
        self@
    }
}

/// Whether `text` has the outline of a displayed payload: an opening brace
/// first and a closing brace last.
pub open spec fn is_braced(text: Seq<char>) -> bool {
    text.len() >= 2 && text.first() == '{' && text.last() == '}'
}

/// Displays a payload through the `Display` impl of `qdrant_client::qdrant::Value`,
/// applied to the struct value whose fields are `fields`.
///
/// Trusted: that impl writes an opening brace, then each field as its quoted
/// name, a colon and its value, in the order in which the map yields them and
/// separated by commas, then a closing brace. So the text is braced, a payload
/// without fields gives the two braces alone, and one with a field gives more.
/// The order of the fields is the map's own and differs from one map to the
/// next, so nothing is claimed of what stands between the braces.
#[verifier::external_body]
fn display_payload(fields: HashMap<String, qdrant_client::qdrant::Value>) -> (text: String)
    ensures
        is_braced(text@),
        fields@.len() == 0 ==> text@ == seq!['{', '}'],
        fields@.len() > 0 ==> text@.len() > 2,
{
    let value = qdrant_client::qdrant::Value {
        kind: Some(
            qdrant_client::qdrant::value::Kind::StructValue(qdrant_client::qdrant::Struct { fields }),
        ),
    };
    format!("{}", value)
}

impl SearchHit {
    /// The match with the displayed payload `payload` and the score `score_bits`.
    pub fn new(payload: String, score_bits: u32) -> (hit: SearchHit)
        ensures
            hit@ == (SearchHitView { payload: payload@, score_bits }),
    {
        SearchHit { payload, score_bits }
    }

    /// The match for a point whose payload has the fields `fields`. The payload
    /// is displayed by the store's client: a payload without fields as the two
    /// braces alone, any other as more than that between braces. Which text
    /// that is for a payload of several fields depends on the order in which
    /// the map yields them.
    pub fn from_payload(fields: HashMap<String, qdrant_client::qdrant::Value>, score_bits: u32) -> (hit:
        SearchHit)
        ensures
            hit@.score_bits == score_bits,
            is_braced(hit@.payload),
            fields@.len() == 0 ==> hit@.payload == seq!['{', '}'],
            fields@.len() > 0 ==> hit@.payload.len() > 2,
    {
        SearchHit::new(display_payload(fields), score_bits)
    }
}

/// The search gave no matches: the store could not be reached, the vector does
/// not have the dimension of the collection, or the store has no collection of
/// that name. The pipeline is not told which; it answers all three alike.
#[derive(Debug, Clone, Copy, PartialEq, Eq, Structural)]
pub struct SearchError;

} // verus!
