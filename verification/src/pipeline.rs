//! The pipeline of one request as a state machine. A step takes the state and
//! what has just happened, and gives the next state and what is to be done:
//! call the embedding provider, call the vector store, or reply. The caller
//! does that and comes back with the outcome, until the action is a reply.

use vstd::prelude::*;
use vstd::string::*;
use crate::embedding::{
    embedding_of, embedding_request, provider_request, take_embedding, EmbeddingError,
    EmbeddingOutcome, EmbeddingOutcomeView, EmbeddingRequest, EmbeddingRequestView,
};
use crate::query::{extract_query, extraction, Rejection, Request};
use crate::render::{page, render_page};
use crate::reply::{
    error_reply, error_response, html_reply, html_response, Reply, ReplyView, STATUS_BAD_GATEWAY,
    STATUS_BAD_REQUEST, STATUS_INTERNAL_ERROR,
};
use crate::service::{Service, ServiceView};
use crate::store::{
    search_request, store_request, SearchError, SearchHit, SearchHitView, SearchRequest,
    SearchRequestView,
};

verus! {

/// Why the pipeline fails after it has accepted the request.
#[derive(Debug, Clone, Copy, PartialEq, Eq, Structural)]
pub enum Failure {
    /// The embedding provider gave no vector.
    Embedding(EmbeddingError),
    /// The vector store gave no matches.
    Store,
    /// The pipeline was handed an event that its state does not wait for.
    OutOfOrder,
}

/// Where the pipeline of one request stands.
#[derive(Debug, Clone, Copy, PartialEq, Eq, Structural)]
pub enum State {
    /// Nothing has happened yet; the request is awaited.
    Start,
    /// The search text has been taken from the request; the embedding is
    /// awaited.
    QueryExtracted,
    /// The provider has given a vector; the matches are awaited.
    Embedded,
    /// The matches have arrived and the page that shows them is the reply.
    /// Rendering needs nothing from outside, so the step that receives the
    /// matches renders them too.
    Rendered,
    /// The request was turned away: the client has to correct it.
    Rejected(Rejection),
    /// The provider or the store failed, or the pipeline was misused.
    Failed(Failure),
}

/// What has just happened.
#[derive(Debug, PartialEq, Eq)]
pub enum Event {
    /// The request has arrived.
    Request(Request),
    /// The call of the embedding provider has ended.
    Embedding(EmbeddingOutcome),
    /// The call of the vector store has ended: with the matches, most similar
    /// first, or with an error.
    Search(Result<Vec<SearchHit>, SearchError>),
}

/// The mathematical model of an [`Event`].
pub enum EventView {
    Request(Seq<(Seq<char>, Seq<char>)>),
    Embedding(EmbeddingOutcomeView),
    Search(Result<Seq<SearchHitView>, SearchError>),
}

impl View for Event {
    type V = EventView;

    open spec fn view(&self) -> EventView {
        match *self {
            Event::Request(request) => EventView::Request(request@),
            Event::Embedding(outcome) => EventView::Embedding(outcome@),
            Event::Search(outcome) => EventView::Search(
                match outcome {
                    Ok(hits) => Ok(hits.deep_view()),
                    Err(error) => Err(error),
                },
            ),
        }
    }
}

/// What is to be done next.
#[derive(Debug, PartialEq, Eq)]
pub enum Action {
    /// Send the request to the embedding provider and come back with
    /// [`Event::Embedding`].
    Embed(EmbeddingRequest),
    /// Run the search in the vector store and come back with
    /// [`Event::Search`].
    Search(SearchRequest),
    /// Send the reply. The pipeline has ended.
    Respond(Reply),
}

/// The mathematical model of an [`Action`].
pub enum ActionView {
    Embed(EmbeddingRequestView),
    Search(SearchRequestView),
    Respond(ReplyView),
}

impl View for Action {
    type V = ActionView;

    open spec fn view(&self) -> ActionView {
        match *self {
            Action::Embed(request) => ActionView::Embed(request@),
            Action::Search(request) => ActionView::Search(request@),
            Action::Respond(reply) => ActionView::Respond(reply@),
        }
    }
}

/// The message that tells the client why its request was turned away.
pub open spec fn rejection_message(reason: Rejection, parameter: Seq<char>) -> Seq<char> {
    match reason {
        Rejection::NoParameters => "Missing query string parameters"@,
        Rejection::MissingParameter => "Missing query string parameter `"@ + parameter + "`"@,
        Rejection::BlankQuery => "Empty query string parameter `"@ + parameter + "`"@,
    }
}

/// The reply to a request that was turned away: status 400 and the message.
pub open spec fn rejection_reply(reason: Rejection, parameter: Seq<char>) -> ReplyView {
    error_reply(STATUS_BAD_REQUEST, rejection_message(reason, parameter))
}

/// The status that reports a failure: 502 where the provider or the store
/// failed, 500 where the pipeline was misused.
pub open spec fn failure_status(failure: Failure) -> u16 {
    match failure {
        Failure::OutOfOrder => STATUS_INTERNAL_ERROR,
        _ => STATUS_BAD_GATEWAY,
    }
}

/// The message that reports a failure. It names the side that failed and holds
/// nothing that the provider or the store has said.
pub open spec fn failure_message(failure: Failure) -> Seq<char> {
    match failure {
        Failure::Embedding(EmbeddingError::Empty) => "Empty output from embedding"@,
        Failure::Embedding(_) => "Embedding request failed"@,
        Failure::Store => "Vector search failed"@,
        Failure::OutOfOrder => "Internal error"@,
    }
}

/// The reply that reports a failure.
pub open spec fn failure_reply(failure: Failure) -> ReplyView {
    error_reply(failure_status(failure), failure_message(failure))
}

/// One step of the pipeline: the next state and the action.
///
/// From `Start`, the request either yields its search text, which is sent to
/// the provider, or is turned away. From `QueryExtracted`, the provider's
/// outcome either yields a vector, which is sent to the store, or fails the
/// pipeline. From `Embedded`, the store's outcome either yields the matches,
/// which are rendered, or fails the pipeline. An event that the state does not
/// wait for fails the pipeline; so does any event after the reply.
pub open spec fn transition(service: ServiceView, state: State, event: EventView) -> (
    State,
    ActionView,
) {
    match (state, event) {
        (State::Start, EventView::Request(parameters)) => match extraction(
            parameters,
            service.parameter,
        ) {
            Ok(query) => (
                State::QueryExtracted,
                ActionView::Embed(provider_request(service.api_key, query)),
            ),
            Err(reason) => (
                State::Rejected(reason),
                ActionView::Respond(rejection_reply(reason, service.parameter)),
            ),
        },
        (State::QueryExtracted, EventView::Embedding(outcome)) => match embedding_of(outcome) {
            Ok(vector) => (
                State::Embedded,
                ActionView::Search(store_request(service.collection, vector, service.limit)),
            ),
            Err(error) => (
                State::Failed(Failure::Embedding(error)),
                ActionView::Respond(failure_reply(Failure::Embedding(error))),
            ),
        },
        (State::Embedded, EventView::Search(outcome)) => match outcome {
            Ok(hits) => (State::Rendered, ActionView::Respond(html_reply(page(hits)))),
            Err(_) => (
                State::Failed(Failure::Store),
                ActionView::Respond(failure_reply(Failure::Store)),
            ),
        },
        _ => (
            State::Failed(Failure::OutOfOrder),
            ActionView::Respond(failure_reply(Failure::OutOfOrder)),
        ),
    }
}

/// Builds the reply to a request that was turned away.
pub fn reject(reason: Rejection, parameter: &str) -> (reply: Reply)
    ensures
        reply@ == rejection_reply(reason, parameter@),
{
    match reason {
        Rejection::NoParameters => error_response(
            STATUS_BAD_REQUEST,
            "Missing query string parameters",
        ),
        Rejection::MissingParameter => {
            let message = "Missing query string parameter `".to_owned().concat(parameter).concat(
                "`",
            );
            error_response(STATUS_BAD_REQUEST, message.as_str())
        },
        Rejection::BlankQuery => {
            let message = "Empty query string parameter `".to_owned().concat(parameter).concat("`");
            error_response(STATUS_BAD_REQUEST, message.as_str())
        },
    }
}

/// Builds the reply that reports a failure.
pub fn fail(failure: Failure) -> (reply: Reply)
    ensures
        reply@ == failure_reply(failure),
{
    match failure {
        Failure::Embedding(EmbeddingError::Empty) => error_response(
            STATUS_BAD_GATEWAY,
            "Empty output from embedding",
        ),
        Failure::Embedding(_) => error_response(STATUS_BAD_GATEWAY, "Embedding request failed"),
        Failure::Store => error_response(STATUS_BAD_GATEWAY, "Vector search failed"),
        Failure::OutOfOrder => error_response(STATUS_INTERNAL_ERROR, "Internal error"),
    }
}

/// Takes one step of the pipeline of a request that `service` handles.
pub fn step(service: &Service, state: State, event: Event) -> (next: (State, Action))
    ensures
        (next.0, next.1@) == transition(service@, state, event@),
        service@.wf(),
{
    let limit = service.limit();
    match (state, event) {
        (State::Start, Event::Request(request)) => {
            match extract_query(&request, service.parameter()) {
                Ok(query) => (
                    State::QueryExtracted,
                    Action::Embed(embedding_request(service.api_key().as_str(), query.as_str())),
                ),
                Err(reason) => (
                    State::Rejected(reason),
                    Action::Respond(reject(reason, service.parameter().as_str())),
                ),
            }
        },
        (State::QueryExtracted, Event::Embedding(outcome)) => {
            match take_embedding(outcome) {
                Ok(vector) => (
                    State::Embedded,
                    Action::Search(search_request(service.collection().as_str(), vector, limit)),
                ),
                Err(error) => (
                    State::Failed(Failure::Embedding(error)),
                    Action::Respond(fail(Failure::Embedding(error))),
                ),
            }
        },
        (State::Embedded, Event::Search(outcome)) => {
            match outcome {
                Ok(hits) => (State::Rendered, Action::Respond(html_response(render_page(&hits)))),
                Err(_) => (State::Failed(Failure::Store), Action::Respond(fail(Failure::Store))),
            }
        },
        _ => (State::Failed(Failure::OutOfOrder), Action::Respond(fail(Failure::OutOfOrder))),
    }
}

} // verus!
