//! Fetching data through a link.
//!
//! No data endpoint of the service answers with the data. It answers with
//! `{"link": "<url>"}`, a short-lived address from which the data is then
//! taken with a second request. The link is chosen by the service and is
//! good for that one request: it is never kept, and nothing is sent along
//! with it.
//!
//! The fetch is written here as a state machine. Whoever owns the connection
//! runs it: it hands [`step`] what happened, performs the action that comes
//! back, and goes on until the action is [`FetchAction::Deliver`] or
//! [`FetchAction::Fail`].

use crate::json::{json_member, json_parse, member, read_document, text_of, DecodeError, FieldName};
use vstd::prelude::*;

verus! {

/// What the HTTP layer reported when a request did not get an answer.
#[derive(Clone, Debug)]
pub struct TransportFailure {
    pub message: String,
}

/// A request to a data endpoint: its address and its query parameters.
#[derive(Clone, Debug)]
pub struct EndpointQuery {
    pub url: &'static str,
    pub params: Vec<(&'static str, String)>,
}

/// Why a fetch did not deliver.
#[derive(Clone, Debug)]
pub enum FetchError {
    /// A request got no answer.
    ConnectionFailure(TransportFailure),
    /// The endpoint answered, but not with a link: the first step failed.
    LinkDecode(DecodeError),
    /// The link answered, but not with the data that was expected: the second
    /// step failed.
    PayloadDecode,
    /// The machine was handed an event that cannot happen in its state.
    OutOfOrder,
}

/// How far a fetch has come.
#[derive(Clone, Debug)]
pub enum FetchState {
    /// Nothing was sent yet.
    Ready(EndpointQuery),
    /// The endpoint was asked; its answer is awaited.
    AwaitingLink,
    /// The link was followed; its answer is awaited.
    AwaitingPayload,
    /// The fetch is over, whether it delivered or failed.
    Finished,
}

/// What happened since the last action. `T` is the data that the endpoint
/// serves.
pub enum FetchEvent<T> {
    /// The fetch is to start.
    Begin,
    /// The endpoint answered with this body, or the request failed.
    LinkReply(Result<Vec<u8>, TransportFailure>),
    /// The link answered with a body that was read as `T`, or with one that
    /// could not be (`None`), or the request failed.
    PayloadReply(Result<Option<T>, TransportFailure>),
}

/// What is to be done next.
pub enum FetchAction<T> {
    /// Send a GET to the endpoint, with the session's cookies.
    QueryEndpoint(EndpointQuery),
    /// Send a GET to this address, with nothing added.
    FollowLink(String),
    /// The fetch is done: this is the data.
    Deliver(T),
    /// The fetch is done: it failed.
    Fail(FetchError),
}

/// The mathematical value of a [`FetchAction`]: the link is a sequence of
/// characters.
pub enum FetchActionView<T> {
    QueryEndpoint(EndpointQuery),
    FollowLink(Seq<char>),
    Deliver(T),
    Fail(FetchError),
}

impl<T> View for FetchAction<T> {
    type V = FetchActionView<T>;

    open spec fn view(&self) -> FetchActionView<T> {
        match *self {
            FetchAction::QueryEndpoint(query) => FetchActionView::QueryEndpoint(query),
            FetchAction::FollowLink(url) => FetchActionView::FollowLink(url@),
            FetchAction::Deliver(data) => FetchActionView::Deliver(data),
            FetchAction::Fail(error) => FetchActionView::Fail(error),
        }
    }
}

/// The link that a parsed answer of an endpoint holds: the string under
/// `link`.
pub open spec fn link_in(value: serde_json::Value) -> Result<Seq<char>, DecodeError> {
    text_of(json_member(value, FieldName::Link.key_text()), FieldName::Link)
}

/// The link that the body of an endpoint's answer holds. The body must be a
/// JSON object with a string under `link`.
pub open spec fn link_of(body: Seq<u8>) -> Result<Seq<char>, DecodeError> {
    match json_parse(body) {
        None => Err(DecodeError::InvalidJson),
        Some(value) => link_in(value),
    }
}

/// Reads the link out of the body of an endpoint's answer.
pub fn decode_link(body: &[u8]) -> (r: Result<String, DecodeError>)
    ensures
        match r {
            Ok(link) => link_of(body@) == Ok::<Seq<char>, DecodeError>(link@),
            Err(e) => link_of(body@) == Err::<Seq<char>, DecodeError>(e),
        },
{
    match read_document(body) {
        Err(e) => Err(e),
        Ok(value) => member(&value, FieldName::Link.key()).into_text(FieldName::Link),
    }
}

/// What follows the answer of the endpoint, once the link was looked for in
/// it: the link is followed, or the fetch ends with the failure of the first
/// step.
pub open spec fn after_link<T>(link: Result<Seq<char>, DecodeError>) -> (
    FetchState,
    FetchActionView<T>,
) {
    match link {
        Ok(url) => (FetchState::AwaitingPayload, FetchActionView::FollowLink(url)),
        Err(e) => (FetchState::Finished, FetchActionView::Fail(FetchError::LinkDecode(e))),
    }
}

/// The state and the action that follow `event` in `state`.
pub open spec fn next<T>(state: FetchState, event: FetchEvent<T>) -> (
    FetchState,
    FetchActionView<T>,
) {
    match (state, event) {
        (FetchState::Ready(query), FetchEvent::Begin) => (
            FetchState::AwaitingLink,
            FetchActionView::QueryEndpoint(query),
        ),
        (FetchState::AwaitingLink, FetchEvent::LinkReply(Ok(body))) => after_link(link_of(body@)),
        (FetchState::AwaitingLink, FetchEvent::LinkReply(Err(failure))) => (
            FetchState::Finished,
            FetchActionView::Fail(FetchError::ConnectionFailure(failure)),
        ),
        (FetchState::AwaitingPayload, FetchEvent::PayloadReply(Ok(Some(data)))) => (
            FetchState::Finished,
            FetchActionView::Deliver(data),
        ),
        (FetchState::AwaitingPayload, FetchEvent::PayloadReply(Ok(None))) => (
            FetchState::Finished,
            FetchActionView::Fail(FetchError::PayloadDecode),
        ),
        (FetchState::AwaitingPayload, FetchEvent::PayloadReply(Err(failure))) => (
            FetchState::Finished,
            FetchActionView::Fail(FetchError::ConnectionFailure(failure)),
        ),
        _ => (FetchState::Finished, FetchActionView::Fail(FetchError::OutOfOrder)),
    }
}

/// Decides what follows the answer of the endpoint, given the link that was
/// read from it or the reason why none was.
pub fn follow_link<T>(link: Result<String, DecodeError>) -> (r: (FetchState, FetchAction<T>))
    ensures
        match link {
            Ok(url) => (r.0, r.1@) == after_link::<T>(Ok(url@)),
            Err(e) => (r.0, r.1@) == after_link::<T>(Err(e)),
        },
{
    match link {
        Ok(url) => (FetchState::AwaitingPayload, FetchAction::FollowLink(url)),
        Err(e) => (FetchState::Finished, FetchAction::Fail(FetchError::LinkDecode(e))),
    }
}

/// Takes the fetch one step further: from the state it is in and what
/// happened, to the state it is in next and what is to be done.
pub fn step<T>(state: FetchState, event: FetchEvent<T>) -> (r: (FetchState, FetchAction<T>))
    ensures
        (r.0, r.1@) == next(state, event),
{
    match (state, event) {
        (FetchState::Ready(query), FetchEvent::Begin) => (
            FetchState::AwaitingLink,
            FetchAction::QueryEndpoint(query),
        ),
        (FetchState::AwaitingLink, FetchEvent::LinkReply(Ok(body))) => follow_link(
            decode_link(body.as_slice()),
        ),
        (FetchState::AwaitingLink, FetchEvent::LinkReply(Err(failure))) => (
            FetchState::Finished,
            FetchAction::Fail(FetchError::ConnectionFailure(failure)),
        ),
        (FetchState::AwaitingPayload, FetchEvent::PayloadReply(Ok(Some(data)))) => (
            FetchState::Finished,
            FetchAction::Deliver(data),
        ),
        (FetchState::AwaitingPayload, FetchEvent::PayloadReply(Ok(None))) => (
            FetchState::Finished,
            FetchAction::Fail(FetchError::PayloadDecode),
        ),
        (FetchState::AwaitingPayload, FetchEvent::PayloadReply(Err(failure))) => (
            FetchState::Finished,
            FetchAction::Fail(FetchError::ConnectionFailure(failure)),
        ),
        _ => (FetchState::Finished, FetchAction::Fail(FetchError::OutOfOrder)),
    }
}

/// The actions that a run of events draws from the machine, one for each
/// event.
pub open spec fn run<T>(state: FetchState, events: Seq<FetchEvent<T>>) -> Seq<FetchActionView<T>>
    decreases events.len(),
{
    if events.len() == 0 {
        Seq::empty()
    } else {
        seq![next(state, events[0]).1] + run(next(state, events[0]).0, events.drop_first())
    }
}

/// The state in which a run of events leaves the machine.
pub open spec fn state_after<T>(state: FetchState, events: Seq<FetchEvent<T>>) -> FetchState
    decreases events.len(),
{
    if events.len() == 0 {
        state
    } else {
        state_after(next(state, events[0]).0, events.drop_first())
    }
}

/// Whether an action sends a request.
pub open spec fn is_request<T>(action: FetchActionView<T>) -> bool {
    action is QueryEndpoint || action is FollowLink
}

/// A fetch that is over stays over, and sends nothing more: whatever it is
/// handed, it answers that the event is out of order.
pub proof fn lemma_finished_sends_nothing<T>(events: Seq<FetchEvent<T>>)
    ensures
        run(FetchState::Finished, events).len() == events.len(),
        forall|i: int|
            0 <= i < events.len() ==> #[trigger] run(FetchState::Finished, events)[i]
                == FetchActionView::<T>::Fail(FetchError::OutOfOrder),
        state_after(FetchState::Finished, events) == FetchState::Finished,
    decreases events.len(),
{
    if events.len() > 0 {
        let rest = events.drop_first();
        lemma_finished_sends_nothing(rest);
        assert(next(FetchState::Finished, events[0]).0 == FetchState::Finished);
        assert forall|i: int| 0 <= i < events.len() implies #[trigger] run(
            FetchState::Finished,
            events,
        )[i] == FetchActionView::<T>::Fail(FetchError::OutOfOrder) by {
            if i > 0 {
                assert(run(FetchState::Finished, events)[i] == run(FetchState::Finished, rest)[i
                    - 1]);
            }
        }
    }
}

/// Where the endpoint's answer holds no link, no address is ever contacted:
/// the fetch fails with the error of the first step, and no action of the
/// run, however long, sends a request.
pub proof fn lemma_no_link_is_never_followed<T>(body: Vec<u8>, events: Seq<FetchEvent<T>>)
    requires
        events.len() >= 1,
        events[0] == FetchEvent::<T>::LinkReply(Ok(body)),
        link_of(body@) is Err,
    ensures
        run(FetchState::AwaitingLink, events)[0] == FetchActionView::<T>::Fail(
            FetchError::LinkDecode(link_of(body@)->Err_0),
        ),
        forall|i: int|
            0 <= i < events.len() ==> !is_request(#[trigger] run(FetchState::AwaitingLink, events)[i]),
{
    let rest = events.drop_first();
    lemma_finished_sends_nothing(rest);
    assert(next(FetchState::AwaitingLink, events[0]).0 == FetchState::Finished);
    assert forall|i: int| 0 <= i < events.len() implies !is_request(
        #[trigger] run(FetchState::AwaitingLink, events)[i],
    ) by {
        if i > 0 {
            assert(run(FetchState::AwaitingLink, events)[i] == run(FetchState::Finished, rest)[i
                - 1]);
        }
    }
}

/// A fetch is over after three events at most, whatever they are: one to
/// start it and one for each of its two requests.
pub proof fn lemma_fetch_ends_after_three_events<T>(
    query: EndpointQuery,
    events: Seq<FetchEvent<T>>,
)
    requires
        events.len() >= 3,
    ensures
        state_after(FetchState::Ready(query), events) == FetchState::Finished,
{
    let s0 = FetchState::Ready(query);
    let s1 = next(s0, events[0]).0;
    let e1 = events.drop_first();
    let s2 = next(s1, e1[0]).0;
    let e2 = e1.drop_first();
    let s3 = next(s2, e2[0]).0;
    let e3 = e2.drop_first();
    assert(s1 == FetchState::AwaitingLink || s1 == FetchState::Finished);
    assert(s2 == FetchState::AwaitingPayload || s2 == FetchState::Finished);
    assert(s3 == FetchState::Finished);
    assert(state_after(s0, events) == state_after(s1, e1));
    assert(state_after(s1, e1) == state_after(s2, e2));
    assert(state_after(s2, e2) == state_after(s3, e3));
    lemma_finished_sends_nothing(e3);
}

} // verus!
