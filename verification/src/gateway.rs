//! The handling of one HTTP request: read the body, call the backend once,
//! answer the client.
//!
//! The waiting is done by the caller. `Exchange::step` decides: it takes what
//! has happened and says what to do next.

use vstd::prelude::*;
use crate::envelope::HttpRequest;
use crate::envelope::HttpResponse;
use crate::envelope::HttpResponseModel;
use crate::request::envelope_of;
use crate::request::new_envelope;
use crate::request::RequestHead;
use crate::response::response_of;
use crate::response::translate_response;
use crate::response::OutboundResponse;
use crate::response::OutboundResponseModel;
use crate::request::RequestHeadModel;
use crate::version::is_known_tag;
use crate::version::lemma_tags_distinct;
use crate::version::lemma_version_round_trip;
use crate::version::tag_of;
use crate::version::HttpVersion;
use crate::wire::is_request_id;

verus! {

/// Why a call to the backend gave no response envelope.
#[derive(Clone, Copy, Debug, PartialEq, Eq, Structural)]
pub enum BackendFailure {
    /// No configured endpoint could be reached.
    Unavailable,
    /// An endpoint was reached and the call failed there.
    Failed,
    /// The backend did not answer within the deadline.
    TimedOut,
}

/// Why a request is answered by the gateway itself.
#[derive(Clone, Copy, Debug, PartialEq, Eq, Structural)]
pub enum GatewayError {
    /// The request body could not be read in full.
    BodyRead,
    /// The call to the backend failed.
    Backend(BackendFailure),
    /// No response could be built from what the backend returned.
    ResponseBuild,
}

/// The status that the client sees for an error: 400 for a body that could
/// not be read, 504 for a backend that timed out, 502 for any other failure
/// of the backend call, 500 for a response that could not be built.
pub open spec fn error_status(err: GatewayError) -> int {
    match err {
        GatewayError::BodyRead => 400,
        GatewayError::Backend(BackendFailure::TimedOut) => 504,
        GatewayError::Backend(_) => 502,
        GatewayError::ResponseBuild => 500,
    }
}

/// The envelope that stands for an error: its status, the tag of HTTP/1.1,
/// no headers and an empty body.
pub open spec fn error_envelope_of(err: GatewayError) -> HttpResponseModel {
    HttpResponseModel {
        version: "HTTP/1.1"@,
        status: error_status(err),
        headers: Seq::empty(),
        body: Seq::empty(),
    }
}

/// The response that the client gets for an error.
pub open spec fn error_response_of(err: GatewayError) -> OutboundResponseModel {
    OutboundResponseModel {
        status: error_status(err),
        version: HttpVersion::Http11,
        headers: Seq::empty(),
        body: Seq::empty(),
    }
}

/// Maps an error to the status that the client sees.
pub fn status_for(err: GatewayError) -> (code: u16)
    ensures
        code as int == error_status(err),
{
    match err {
        GatewayError::BodyRead => 400,
        GatewayError::Backend(BackendFailure::TimedOut) => 504,
        GatewayError::Backend(_) => 502,
        GatewayError::ResponseBuild => 500,
    }
}

/// Makes the envelope that stands for an error, so that an error takes the
/// same way to the client as a response of the backend.
pub fn error_envelope(err: GatewayError) -> (env: HttpResponse)
    ensures
        env@ == error_envelope_of(err),
{
    let code = status_for(err);
    let env = HttpResponse {
        version: "HTTP/1.1".to_owned(),
        status: code as i32,
        headers: Vec::new(),
        body: Vec::new(),
    };
    proof {
        assert(env@ =~= error_envelope_of(err));
    }
    env
}

/// Builds the response that the client gets for an error: the error's
/// status, HTTP/1.1, no headers, an empty body.
pub fn error_response(err: GatewayError) -> (out: OutboundResponse)
    ensures
        out@ == error_response_of(err),
{
    let out = translate_response(error_envelope(err));
    proof {
        lemma_error_response(err);
    }
    out
}

/// An error's envelope is translated like any other, and what comes out is
/// the error's response.
pub proof fn lemma_error_response(err: GatewayError)
    ensures
        response_of(error_envelope_of(err)) == error_response_of(err),
{
    lemma_tags_distinct();
    assert(response_of(error_envelope_of(err)) =~= error_response_of(err));
}

/// The request line survives the way to the backend and back. The envelope
/// carries the method and the URI of the request as they are, and the tag of
/// its version; and a response envelope that carries this tag is sent to the
/// client with the version of the request. Only a version that is none of
/// the five named ones is replaced, by HTTP/1.1.
pub proof fn lemma_request_line_round_trip(
    head: RequestHeadModel,
    body: Seq<u8>,
    id: Seq<char>,
    reply: HttpResponseModel,
)
    requires
        reply.version == envelope_of(head, body, id).version,
    ensures
        envelope_of(head, body, id).method == head.method,
        envelope_of(head, body, id).uri == head.uri,
        envelope_of(head, body, id).version == tag_of(head.version),
        is_known_tag(envelope_of(head, body, id).version),
        head.version != HttpVersion::Unknown ==> response_of(reply).version == head.version,
        head.version == HttpVersion::Unknown ==> response_of(reply).version
            == HttpVersion::Http11,
{
    lemma_version_round_trip(head.version);
}

/// A body passes unchanged in both directions, whatever bytes it is made of
/// and however many: the backend gets the bytes read from the client, and
/// the client gets the bytes of the response envelope.
pub proof fn lemma_bodies_preserved(
    head: RequestHeadModel,
    body: Seq<u8>,
    id: Seq<char>,
    reply: HttpResponseModel,
)
    ensures
        envelope_of(head, body, id).body == body,
        response_of(reply).body == reply.body,
{
}

/// How far the handling of a request has come.
#[derive(Clone, Copy, Debug, PartialEq, Eq, Structural)]
pub enum Phase {
    /// The body is being read; the backend has not been called.
    ReadingBody,
    /// The backend has been called once and has not answered.
    CallingBackend,
    /// The client has been answered.
    Finished,
}

/// The kinds of things that can happen to a request.
#[derive(Clone, Copy, Debug, PartialEq, Eq, Structural)]
pub enum EventKind {
    BodyRead,
    BodyFailed,
    BackendReplied,
    BackendFailed,
}

/// The kinds of things that the handler can ask for.
#[derive(Clone, Copy, Debug, PartialEq, Eq, Structural)]
pub enum ActionKind {
    CallBackend,
    Respond,
    Nothing,
}

/// What has happened to a request.
#[derive(Clone, Debug, PartialEq, Eq)]
pub enum Event {
    /// The body has been read in full.
    BodyRead(Vec<u8>),
    /// Reading the body failed.
    BodyFailed,
    /// The backend returned a response envelope.
    BackendReplied(HttpResponse),
    /// The call to the backend failed.
    BackendFailed(BackendFailure),
}

/// What to do next for a request.
#[derive(Clone, Debug, PartialEq, Eq)]
pub enum Action {
    /// Send this envelope to the backend, once.
    CallBackend(HttpRequest),
    /// Send this response to the client.
    Respond(OutboundResponse),
    /// Nothing: the event does not belong to this phase and is dropped.
    Nothing,
}

/// The handling of one request.
#[derive(Debug)]
pub enum Exchange {
    ReadingBody(RequestHead),
    CallingBackend,
    Finished,
}

impl Event {
    pub open spec fn kind(self) -> EventKind {
        match self {
            Event::BodyRead(_) => EventKind::BodyRead,
            Event::BodyFailed => EventKind::BodyFailed,
            Event::BackendReplied(_) => EventKind::BackendReplied,
            Event::BackendFailed(_) => EventKind::BackendFailed,
        }
    }
}

impl Action {
    pub open spec fn kind(self) -> ActionKind {
        match self {
            Action::CallBackend(_) => ActionKind::CallBackend,
            Action::Respond(_) => ActionKind::Respond,
            Action::Nothing => ActionKind::Nothing,
        }
    }
}

/// The phase after an event.
pub open spec fn next_phase(phase: Phase, event: EventKind) -> Phase {
    match (phase, event) {
        (Phase::ReadingBody, EventKind::BodyRead) => Phase::CallingBackend,
        (Phase::ReadingBody, EventKind::BodyFailed) => Phase::Finished,
        (Phase::CallingBackend, EventKind::BackendReplied) => Phase::Finished,
        (Phase::CallingBackend, EventKind::BackendFailed) => Phase::Finished,
        _ => phase,
    }
}

/// The kind of action that an event leads to.
pub open spec fn next_action(phase: Phase, event: EventKind) -> ActionKind {
    match (phase, event) {
        (Phase::ReadingBody, EventKind::BodyRead) => ActionKind::CallBackend,
        (Phase::ReadingBody, EventKind::BodyFailed) => ActionKind::Respond,
        (Phase::CallingBackend, EventKind::BackendReplied) => ActionKind::Respond,
        (Phase::CallingBackend, EventKind::BackendFailed) => ActionKind::Respond,
        _ => ActionKind::Nothing,
    }
}

impl Exchange {
    pub open spec fn phase(self) -> Phase {
        match self {
            Exchange::ReadingBody(_) => Phase::ReadingBody,
            Exchange::CallingBackend => Phase::CallingBackend,
            Exchange::Finished => Phase::Finished,
        }
    }

    /// Starts the handling of a request whose header section has been read.
    pub fn begin(head: RequestHead) -> (exchange: Exchange)
        ensures
            exchange == Exchange::ReadingBody(head),
    {
        Exchange::ReadingBody(head)
    }

    /// Reports how far the handling has come.
    pub fn current_phase(&self) -> (phase: Phase)
        ensures
            phase == self.phase(),
    {
        match self {
            Exchange::ReadingBody(_) => Phase::ReadingBody,
            Exchange::CallingBackend => Phase::CallingBackend,
            Exchange::Finished => Phase::Finished,
        }
    }

    /// Takes an event and says what to do next.
    ///
    /// A body read in full leads to the one call of the backend, with the
    /// request's envelope under a fresh identifier. A body that could not be
    /// read is answered with 400 and the backend is not called. The
    /// backend's envelope is translated into the response; a failed call is
    /// answered with 502, or 504 after a timeout. An event that does not
    /// belong to the phase changes nothing and asks for nothing.
    pub fn step(self, event: Event) -> (next: (Exchange, Action))
        ensures
            next.0.phase() == next_phase(self.phase(), event.kind()),
            next.1.kind() == next_action(self.phase(), event.kind()),
            next.1.kind() == ActionKind::Nothing ==> next.0 == self,
            match (self, event) {
                (Exchange::ReadingBody(head), Event::BodyRead(body)) => {
                    &&& next.1 matches Action::CallBackend(env)
                    &&& is_request_id(env@.id)
                    &&& env@ == envelope_of(head@, body@, env@.id)
                },
                (Exchange::ReadingBody(_), Event::BodyFailed) => {
                    &&& next.1 matches Action::Respond(out)
                    &&& out@ == error_response_of(GatewayError::BodyRead)
                },
                (Exchange::CallingBackend, Event::BackendReplied(reply)) => {
                    &&& next.1 matches Action::Respond(out)
                    &&& out@ == response_of(reply@)
                },
                (Exchange::CallingBackend, Event::BackendFailed(failure)) => {
                    &&& next.1 matches Action::Respond(out)
                    &&& out@ == error_response_of(GatewayError::Backend(failure))
                },
                _ => true,
            },
    {
        match self {
            Exchange::ReadingBody(head) => match event {
                Event::BodyRead(body) => {
                    let env = new_envelope(head, body);
                    (Exchange::CallingBackend, Action::CallBackend(env))
                },
                Event::BodyFailed => {
                    (Exchange::Finished, Action::Respond(error_response(GatewayError::BodyRead)))
                },
                _ => (Exchange::ReadingBody(head), Action::Nothing),
            },
            Exchange::CallingBackend => match event {
                Event::BackendReplied(reply) => {
                    (Exchange::Finished, Action::Respond(translate_response(reply)))
                },
                Event::BackendFailed(failure) => {
                    (
                        Exchange::Finished,
                        Action::Respond(error_response(GatewayError::Backend(failure))),
                    )
                },
                _ => (Exchange::CallingBackend, Action::Nothing),
            },
            Exchange::Finished => (Exchange::Finished, Action::Nothing),
        }
    }
}

/// How many backend calls a run of events leads to, from a given phase.
pub open spec fn calls_in(phase: Phase, events: Seq<EventKind>) -> nat
    decreases events.len(),
{
    if events.len() == 0 {
        0
    } else {
        let rest = calls_in(next_phase(phase, events[0]), events.drop_first());
        if next_action(phase, events[0]) == ActionKind::CallBackend {
            rest + 1
        } else {
            rest
        }
    }
}

/// How many responses a run of events leads to, from a given phase.
pub open spec fn responses_in(phase: Phase, events: Seq<EventKind>) -> nat
    decreases events.len(),
{
    if events.len() == 0 {
        0
    } else {
        let rest = responses_in(next_phase(phase, events[0]), events.drop_first());
        if next_action(phase, events[0]) == ActionKind::Respond {
            rest + 1
        } else {
            rest
        }
    }
}

/// The phase that a run of events ends in, from a given phase.
pub open spec fn phase_after(phase: Phase, events: Seq<EventKind>) -> Phase
    decreases events.len(),
{
    if events.len() == 0 {
        phase
    } else {
        phase_after(next_phase(phase, events[0]), events.drop_first())
    }
}

/// Whatever happens to a request, and in whatever order, the backend is
/// called at most once and the client is answered at most once. The client
/// has been answered exactly once when the handling is finished, and not at
/// all before; no call follows once the backend has been called; and a
/// finished handling stays finished.
pub proof fn lemma_one_call_one_response(phase: Phase, events: Seq<EventKind>)
    ensures
        calls_in(phase, events) <= 1,
        responses_in(phase, events) <= 1,
        phase != Phase::ReadingBody ==> calls_in(phase, events) == 0,
        phase == Phase::Finished ==> responses_in(phase, events) == 0,
        phase == Phase::Finished ==> phase_after(phase, events) == Phase::Finished,
        phase != Phase::Finished ==> (responses_in(phase, events) == 1 <==> phase_after(
            phase,
            events,
        ) == Phase::Finished),
    decreases events.len(),
{
    if events.len() > 0 {
        lemma_one_call_one_response(next_phase(phase, events[0]), events.drop_first());
    }
}

} // verus!
