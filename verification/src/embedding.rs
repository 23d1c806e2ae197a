//! The embedding provider: the request that is sent to it, the reply that comes
//! back, and the vector that is taken from the reply.
//!
//! A vector is held as the sequence of its components' IEEE 754 single-precision
//! bit patterns. The pipeline never computes on a component; it hands the vector
//! from the provider to the vector store as it came.

use vstd::prelude::*;
use vstd::string::*;
use crate::json::{json_string, json_string_decodes, json_text, quote};

verus! {

/// The request that asks the provider to embed one text: the HTTP method, the
/// address, the headers in the order in which they are to be written, and the
/// body.
#[derive(Debug, PartialEq, Eq)]
pub struct EmbeddingRequest {
    pub method: String,
    pub url: String,
    pub headers: Vec<(String, String)>,
    pub body: String,
}

/// The mathematical model of an [`EmbeddingRequest`].
pub struct EmbeddingRequestView {
    pub method: Seq<char>,
    pub url: Seq<char>,
    pub headers: Seq<(Seq<char>, Seq<char>)>,
    pub body: Seq<char>,
}

impl View for EmbeddingRequest {
    type V = EmbeddingRequestView;

    open spec fn view(&self) -> EmbeddingRequestView {
        EmbeddingRequestView {
            method: self.method@,
            url: self.url@,
            headers: self.headers.deep_view(),
            body: self.body@,
        }
    }
}

impl DeepView for EmbeddingRequest {
    type V = EmbeddingRequestView;

    open spec fn deep_view(&self) -> EmbeddingRequestView {
        self@
    }
}

/// The method by which the provider is asked.
pub open spec fn provider_method() -> Seq<char> {
    "POST"@
}

/// The provider's endpoint.
pub open spec fn provider_url() -> Seq<char> {
    "https://api.cohere.ai/embed"@
}

/// The headers of a request made with `api_key`: the bearer token, the content
/// type and the version of the provider's API.
pub open spec fn provider_headers(api_key: Seq<char>) -> Seq<(Seq<char>, Seq<char>)> {
    seq![
        ("Authorization"@, "Bearer "@ + api_key),
        ("Content-Type"@, "application/json"@),
        ("Cohere-Version"@, "2021-11-08"@),
    ]
}

/// The body that asks for the embedding of `query` by the model `small`: a
/// JSON object with two members, the list `texts` that holds `query` as its one
/// string, and `model`.
pub open spec fn provider_body(query: Seq<char>) -> Seq<char> {
    "{\"texts\":["@ + json_string(query) + "],\"model\":\"small\"}"@
}

/// The body holds the query as a string literal, right behind the opening of
/// the list `texts`, and the query can be read back from that literal whatever
/// characters it holds.
pub proof fn provider_body_holds_the_query(query: Seq<char>)
    ensures
        provider_body(query).subrange(0, 10) == "{\"texts\":["@,
        provider_body(query).subrange(10, 10 + json_string(query).len() as int) == json_string(query),
        provider_body(query).skip(10 + json_string(query).len() as int) == "],\"model\":\"small\"}"@,
        json_text(json_string(query)) == Some(query),
{
    reveal_strlit("{\"texts\":[");
    json_string_decodes(query);
    let body = provider_body(query);
    let literal = json_string(query);
    assert(body.subrange(0, 10) =~= "{\"texts\":["@);
    assert(body.subrange(10, 10 + literal.len() as int) =~= literal);
    assert(body.skip(10 + literal.len() as int) =~= "],\"model\":\"small\"}"@);
}

/// The request that embeds `query` on behalf of the holder of `api_key`.
pub open spec fn provider_request(api_key: Seq<char>, query: Seq<char>) -> EmbeddingRequestView {
    EmbeddingRequestView {
        method: provider_method(),
        url: provider_url(),
        headers: provider_headers(api_key),
        body: provider_body(query),
    }
}

/// Builds the request that embeds `query`.
pub fn embedding_request(api_key: &str, query: &str) -> (request: EmbeddingRequest)
    ensures
        request@ == provider_request(api_key@, query@),
{
    let mut headers: Vec<(String, String)> = Vec::new();
    headers.push(("Authorization".to_owned(), "Bearer ".to_owned().concat(api_key)));
    headers.push(("Content-Type".to_owned(), "application/json".to_owned()));
    headers.push(("Cohere-Version".to_owned(), "2021-11-08".to_owned()));
    let body = "{\"texts\":[".to_owned().concat(quote(query).as_str()).concat(
        "],\"model\":\"small\"}",
    );
    let request = EmbeddingRequest {
        method: "POST".to_owned(),
        url: "https://api.cohere.ai/embed".to_owned(),
        headers,
        body,
    };
    assert(request.headers.deep_view() =~= provider_headers(api_key@));
    request
}

/// The version of the provider's API that produced a reply.
#[derive(Debug, PartialEq, Eq)]
pub struct ApiVersion {
    pub version: String,
}

/// What the provider charges for a reply.
#[derive(Debug, PartialEq, Eq)]
pub struct BilledUnits {
    pub input_tokens: u32,
}

/// The metadata of a reply. The pipeline carries it and decides nothing by it.
#[derive(Debug, PartialEq, Eq)]
pub struct Meta {
    pub api_version: ApiVersion,
    pub billed_units: BilledUnits,
}

/// The provider's reply to an [`EmbeddingRequest`]: one embedding for each text
/// of the request, and metadata.
#[derive(Debug, PartialEq, Eq)]
pub struct EmbeddingResponse {
    pub id: String,
    pub texts: Vec<String>,
    pub embeddings: Vec<Vec<u32>>,
    pub meta: Meta,
    pub response_type: String,
}

/// The mathematical model of an [`EmbeddingResponse`].
pub struct EmbeddingResponseView {
    pub id: Seq<char>,
    pub texts: Seq<Seq<char>>,
    pub embeddings: Seq<Seq<u32>>,
    pub api_version: Seq<char>,
    pub input_tokens: u32,
    pub response_type: Seq<char>,
}

impl View for EmbeddingResponse {
    type V = EmbeddingResponseView;

    open spec fn view(&self) -> EmbeddingResponseView {
        EmbeddingResponseView {
            id: self.id@,
            texts: self.texts.deep_view(),
            embeddings: self.embeddings.deep_view(),
            api_version: self.meta.api_version.version@,
            input_tokens: self.meta.billed_units.input_tokens,
            response_type: self.response_type@,
        }
    }
}

impl DeepView for EmbeddingResponse {
    type V = EmbeddingResponseView;

    open spec fn deep_view(&self) -> EmbeddingResponseView {
        self@
    }
}

/// How a call of the provider ended.
#[derive(Debug, PartialEq, Eq)]
pub enum EmbeddingOutcome {
    /// No reply arrived.
    Unreachable,
    /// A reply arrived with the HTTP status `status`. `response` is its body
    /// where the body could be read as an [`EmbeddingResponse`].
    Replied { status: u16, response: Option<EmbeddingResponse> },
}

/// The mathematical model of an [`EmbeddingOutcome`].
pub enum EmbeddingOutcomeView {
    Unreachable,
    Replied { status: u16, response: Option<EmbeddingResponseView> },
}

impl View for EmbeddingOutcome {
    type V = EmbeddingOutcomeView;

    open spec fn view(&self) -> EmbeddingOutcomeView {
        match *self {
            EmbeddingOutcome::Unreachable => EmbeddingOutcomeView::Unreachable,
            EmbeddingOutcome::Replied { status, response } => EmbeddingOutcomeView::Replied {
                status,
                response: response.deep_view(),
            },
        }
    }
}

impl DeepView for EmbeddingOutcome {
    type V = EmbeddingOutcomeView;

    open spec fn deep_view(&self) -> EmbeddingOutcomeView {
        self@
    }
}

/// Why a call of the provider yields no vector.
#[derive(Debug, Clone, Copy, PartialEq, Eq, Structural)]
pub enum EmbeddingError {
    /// No reply arrived.
    Network,
    /// The reply's status is outside 200 to 299.
    Status,
    /// The reply's body could not be read.
    Malformed,
    /// The reply holds no embedding.
    Empty,
}

/// Whether `status` reports success.
pub open spec fn is_success(status: u16) -> bool {
    200 <= status <= 299
}

/// The vector that a call of the provider yields: the first embedding of a
/// successful, readable reply. Everything else is an error.
pub open spec fn embedding_of(outcome: EmbeddingOutcomeView) -> Result<Seq<u32>, EmbeddingError> {
    match outcome {
        EmbeddingOutcomeView::Unreachable => Err(EmbeddingError::Network),
        EmbeddingOutcomeView::Replied { status, response } => if !is_success(status) {
            Err(EmbeddingError::Status)
        } else {
            match response {
                None => Err(EmbeddingError::Malformed),
                Some(response) => if response.embeddings.len() == 0 {
                    Err(EmbeddingError::Empty)
                } else {
                    Ok(response.embeddings[0])
                },
            }
        },
    }
}

/// Takes the vector out of the outcome of a call of the provider.
pub fn take_embedding(outcome: EmbeddingOutcome) -> (result: Result<Vec<u32>, EmbeddingError>)
    ensures
        match result {
            Ok(vector) => embedding_of(outcome@) == Ok::<Seq<u32>, EmbeddingError>(vector@),
            Err(error) => embedding_of(outcome@) == Err::<Seq<u32>, EmbeddingError>(error),
        },
{
    match outcome {
        EmbeddingOutcome::Unreachable => Err(EmbeddingError::Network),
        EmbeddingOutcome::Replied { status, response } => {
            if status < 200 || status > 299 {
                return Err(EmbeddingError::Status);
            }
            match response {
                None => Err(EmbeddingError::Malformed),
                Some(response) => {
                    let mut embeddings = response.embeddings;
                    if embeddings.len() == 0 {
                        return Err(EmbeddingError::Empty);
                    }
                    let ghost first = embeddings@[0];
                    let vector = embeddings.remove(0);
                    assert(first.deep_view() =~= vector@);
                    Ok(vector)
                },
            }
        },
    }
}

} // verus!
