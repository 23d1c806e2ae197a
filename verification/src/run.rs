//! Whole runs of the pipeline, and what holds of every run.
//!
//! The outside world is modelled by two functions: the outcome that the
//! embedding provider has for each request, and the outcome that the vector
//! store has for each search. A run starts with the inbound request, performs
//! each call that the pipeline asks for by looking up its outcome, and ends
//! with the reply.

use vstd::prelude::*;
use crate::embedding::{
    embedding_of, provider_request, EmbeddingOutcomeView, EmbeddingRequestView,
};
use crate::pipeline::{
    failure_reply, rejection_reply, transition, ActionView, EventView, Failure, State,
};
use crate::query::extraction;
use crate::render::{fragment, fragments, page};
use crate::reply::html_reply;
use crate::service::ServiceView;
use crate::store::{store_request, SearchError, SearchHitView, SearchRequestView};

verus! {

/// The largest number of steps that the pipeline can still take from `state`.
pub open spec fn steps_left(state: State) -> nat {
    match state {
        State::Start => 3,
        State::QueryExtracted => 2,
        State::Embedded => 1,
        _ => 0,
    }
}

/// The actions of the pipeline from `state` on, when `event` has just happened
/// and every call is answered by `provider` or `store`.
pub open spec fn drive(
    service: ServiceView,
    state: State,
    event: EventView,
    provider: spec_fn(EmbeddingRequestView) -> EmbeddingOutcomeView,
    store: spec_fn(SearchRequestView) -> Result<Seq<SearchHitView>, SearchError>,
) -> Seq<ActionView>
    decreases steps_left(state),
{
    let (next, action) = transition(service, state, event);
    if steps_left(next) < steps_left(state) {
        match action {
            ActionView::Embed(request) => seq![action] + drive(
                service,
                next,
                EventView::Embedding(provider(request)),
                provider,
                store,
            ),
            ActionView::Search(request) => seq![action] + drive(
                service,
                next,
                EventView::Search(store(request)),
                provider,
                store,
            ),
            ActionView::Respond(_) => seq![action],
        }
    } else {
        seq![action]
    }
}

/// The actions of the pipeline for one inbound request.
pub open spec fn run(
    service: ServiceView,
    request: Seq<(Seq<char>, Seq<char>)>,
    provider: spec_fn(EmbeddingRequestView) -> EmbeddingOutcomeView,
    store: spec_fn(SearchRequestView) -> Result<Seq<SearchHitView>, SearchError>,
) -> Seq<ActionView> {
    drive(service, State::Start, EventView::Request(request), provider, store)
}

/// The requests that `actions` send to the embedding provider, in order.
pub open spec fn embeds(actions: Seq<ActionView>) -> Seq<EmbeddingRequestView>
    decreases actions.len(),
{
    if actions.len() == 0 {
        Seq::empty()
    } else {
        match actions.last() {
            ActionView::Embed(request) => embeds(actions.drop_last()).push(request),
            _ => embeds(actions.drop_last()),
        }
    }
}

/// The searches that `actions` ask of the vector store, in order.
pub open spec fn searches(actions: Seq<ActionView>) -> Seq<SearchRequestView>
    decreases actions.len(),
{
    if actions.len() == 0 {
        Seq::empty()
    } else {
        match actions.last() {
            ActionView::Search(request) => searches(actions.drop_last()).push(request),
            _ => searches(actions.drop_last()),
        }
    }
}

/// A step either replies, and the pipeline has ended, or asks for a call and
/// is one step closer to its end. The pipeline never goes back to a state that
/// it has left.
pub proof fn step_makes_progress(service: ServiceView, state: State, event: EventView)
    ensures
        ({
            let (next, action) = transition(service, state, event);
            &&& (action is Respond) == (steps_left(next) == 0)
            &&& !(action is Respond) ==> steps_left(next) + 1 == steps_left(state)
            &&& (action is Embed) == (next == State::QueryExtracted)
            &&& (action is Search) == (next == State::Embedded)
        }),
{
}

/// The state in which the pipeline ends tells the class of the reply: a
/// rendered page goes out with status 200, a request that was turned away is
/// answered with a client error, a failure with a server error. The pipeline
/// ends in no other state.
pub proof fn final_state_tells_the_reply(service: ServiceView, state: State, event: EventView)
    ensures
        ({
            let (next, action) = transition(service, state, event);
            action matches ActionView::Respond(reply) ==> match next {
                State::Rendered => reply.status == 200,
                State::Rejected(_) => 400 <= reply.status <= 499,
                State::Failed(_) => 500 <= reply.status <= 599,
                _ => false,
            }
        }),
{
}

/// The calls and the reply of a run, written out: the provider is called for
/// the search text, the store for the vector, and the first thing that goes
/// wrong ends the run with its reply.
pub open spec fn outline(
    service: ServiceView,
    request: Seq<(Seq<char>, Seq<char>)>,
    provider: spec_fn(EmbeddingRequestView) -> EmbeddingOutcomeView,
    store: spec_fn(SearchRequestView) -> Result<Seq<SearchHitView>, SearchError>,
) -> Seq<ActionView> {
    match extraction(request, service.parameter) {
        Err(reason) => seq![ActionView::Respond(rejection_reply(reason, service.parameter))],
        Ok(query) => {
            let embed = provider_request(service.api_key, query);
            match embedding_of(provider(embed)) {
                Err(error) => seq![
                    ActionView::Embed(embed),
                    ActionView::Respond(failure_reply(Failure::Embedding(error))),
                ],
                Ok(vector) => {
                    let search = store_request(service.collection, vector, service.limit);
                    let reply = match store(search) {
                        Err(_) => failure_reply(Failure::Store),
                        Ok(hits) => html_reply(page(hits)),
                    };
                    seq![
                        ActionView::Embed(embed),
                        ActionView::Search(search),
                        ActionView::Respond(reply),
                    ]
                },
            }
        },
    }
}

/// Every run is its outline.
pub proof fn run_follows_outline(
    service: ServiceView,
    request: Seq<(Seq<char>, Seq<char>)>,
    provider: spec_fn(EmbeddingRequestView) -> EmbeddingOutcomeView,
    store: spec_fn(SearchRequestView) -> Result<Seq<SearchHitView>, SearchError>,
)
    ensures
        run(service, request, provider, store) == outline(service, request, provider, store),
{
    reveal_with_fuel(drive, 4);
    assert(run(service, request, provider, store) =~= outline(service, request, provider, store));
}

/// A run ends with a reply and replies only once. Before that it calls the
/// provider at most once and the store at most once: nothing is tried again.
pub proof fn run_ends_with_reply(
    service: ServiceView,
    request: Seq<(Seq<char>, Seq<char>)>,
    provider: spec_fn(EmbeddingRequestView) -> EmbeddingOutcomeView,
    store: spec_fn(SearchRequestView) -> Result<Seq<SearchHitView>, SearchError>,
)
    ensures
        ({
            let actions = run(service, request, provider, store);
            &&& 1 <= actions.len() <= 3
            &&& actions.last() is Respond
            &&& forall|i: int| 0 <= i < actions.len() - 1 ==> !(#[trigger] actions[i] is Respond)
            &&& embeds(actions).len() <= 1
            &&& searches(actions).len() <= 1
        }),
{
    run_follows_outline(service, request, provider, store);
    if extraction(request, service.parameter) is Ok {
        accepted_request_calls_each_side_once(service, request, provider, store);
    } else {
        rejected_request_makes_no_call(service, request, provider, store);
    }
}

/// A request from which no search text can be taken, because the parameter is
/// missing or blank, is answered with status 400 at once: nothing is sent to
/// the embedding provider and nothing is asked of the vector store.
pub proof fn rejected_request_makes_no_call(
    service: ServiceView,
    request: Seq<(Seq<char>, Seq<char>)>,
    provider: spec_fn(EmbeddingRequestView) -> EmbeddingOutcomeView,
    store: spec_fn(SearchRequestView) -> Result<Seq<SearchHitView>, SearchError>,
)
    requires
        extraction(request, service.parameter) is Err,
    ensures
        ({
            let actions = run(service, request, provider, store);
            &&& actions.len() == 1
            &&& actions[0] matches ActionView::Respond(reply)
            &&& 400 <= reply.status <= 499
            &&& embeds(actions).len() == 0
            &&& searches(actions).len() == 0
        }),
{
    run_follows_outline(service, request, provider, store);
    let actions = run(service, request, provider, store);
    assert(actions.drop_last() =~= Seq::empty());
    reveal_with_fuel(embeds, 2);
    reveal_with_fuel(searches, 2);
}

/// A request with a search text has the embedding provider called exactly
/// once, for that text. Where the provider yields a vector, the vector store
/// is called exactly once, for that very vector, so with as many components as
/// the provider gave it; where it yields none, the store is not called.
pub proof fn accepted_request_calls_each_side_once(
    service: ServiceView,
    request: Seq<(Seq<char>, Seq<char>)>,
    provider: spec_fn(EmbeddingRequestView) -> EmbeddingOutcomeView,
    store: spec_fn(SearchRequestView) -> Result<Seq<SearchHitView>, SearchError>,
)
    requires
        extraction(request, service.parameter) is Ok,
    ensures
        ({
            let actions = run(service, request, provider, store);
            let query = extraction(request, service.parameter)->Ok_0;
            let embed = provider_request(service.api_key, query);
            &&& embeds(actions) == seq![embed]
            &&& match embedding_of(provider(embed)) {
                Ok(vector) => {
                    &&& searches(actions) == seq![
                        store_request(service.collection, vector, service.limit),
                    ]
                    &&& searches(actions)[0].vector.len() == vector.len()
                },
                Err(_) => searches(actions).len() == 0,
            }
        }),
{
    run_follows_outline(service, request, provider, store);
    let actions = run(service, request, provider, store);
    let query = extraction(request, service.parameter)->Ok_0;
    let embed = provider_request(service.api_key, query);
    reveal_with_fuel(embeds, 4);
    reveal_with_fuel(searches, 4);
    match embedding_of(provider(embed)) {
        Ok(vector) => {
            let search = store_request(service.collection, vector, service.limit);
            assert(actions.drop_last() =~= seq![
                ActionView::Embed(embed),
                ActionView::Search(search),
            ]);
            assert(actions.drop_last().drop_last() =~= seq![ActionView::Embed(embed)]);
            assert(actions.drop_last().drop_last().drop_last() =~= Seq::empty());
            assert(embeds(actions) =~= seq![embed]);
            assert(searches(actions) =~= seq![search]);
        },
        Err(_) => {
            assert(actions.drop_last() =~= seq![ActionView::Embed(embed)]);
            assert(actions.drop_last().drop_last() =~= Seq::empty());
            assert(embeds(actions) =~= seq![embed]);
        },
    }
}

/// Where the provider's reply holds no embedding, the run fails with status
/// 502 and the vector store is not called.
pub proof fn empty_embedding_fails_before_search(
    service: ServiceView,
    request: Seq<(Seq<char>, Seq<char>)>,
    provider: spec_fn(EmbeddingRequestView) -> EmbeddingOutcomeView,
    store: spec_fn(SearchRequestView) -> Result<Seq<SearchHitView>, SearchError>,
)
    requires
        extraction(request, service.parameter) is Ok,
        ({
            let query = extraction(request, service.parameter)->Ok_0;
            provider(provider_request(service.api_key, query)) matches EmbeddingOutcomeView::Replied {
                response: Some(response),
                ..
            } && response.embeddings.len() == 0
        }),
    ensures
        ({
            let actions = run(service, request, provider, store);
            &&& searches(actions).len() == 0
            &&& actions.last() matches ActionView::Respond(reply)
            &&& 500 <= reply.status <= 599
        }),
{
    run_follows_outline(service, request, provider, store);
    accepted_request_calls_each_side_once(service, request, provider, store);
}

/// Two requests with the same search text, run against the same provider and
/// the same store, lead to the same calls and the same reply. So do two
/// requests that are turned away for the same reason.
pub proof fn same_query_same_run(
    service: ServiceView,
    first: Seq<(Seq<char>, Seq<char>)>,
    second: Seq<(Seq<char>, Seq<char>)>,
    provider: spec_fn(EmbeddingRequestView) -> EmbeddingOutcomeView,
    store: spec_fn(SearchRequestView) -> Result<Seq<SearchHitView>, SearchError>,
)
    requires
        extraction(first, service.parameter) == extraction(second, service.parameter),
    ensures
        run(service, first, provider, store) == run(service, second, provider, store),
{
    run_follows_outline(service, first, provider, store);
    run_follows_outline(service, second, provider, store);
}

/// The page shows every match, one fragment each, in the order in which the
/// store returned them: the fragment of a match stands behind the page of the
/// matches before it and in front of the page of the matches after it. Where
/// the store kept to the limit, no more fragments are shown than the limit
/// allows.
pub proof fn page_keeps_order_and_count(hits: Seq<SearchHitView>, limit: u64, i: int)
    requires
        0 <= i < hits.len(),
    ensures
        fragments(hits).len() == hits.len(),
        hits.len() <= limit ==> fragments(hits).len() <= limit,
        fragments(hits)[i] == fragment(hits[i].payload),
        page(hits) == page(hits.take(i)) + fragment(hits[i].payload) + page(hits.skip(i + 1)),
{
    let before = fragments(hits.take(i));
    let after = fragments(hits.skip(i + 1));
    let one = seq![fragment(hits[i].payload)];
    assert(fragments(hits) =~= before + one + after);
    vstd::seq_lib::lemma_flatten_concat(before + one, after);
    vstd::seq_lib::lemma_flatten_concat(before, one);
    one.lemma_flatten_one_element();
}

} // verus!
