use vstd::prelude::*;

use vstd::slice::slice_to_vec;

use crate::http::{HttpHeader, Reply};
use crate::utils::configuration::Configuration;
use crate::utils::error::{context, is_context_error, ActixDemoError};

verus! {

/// The answer to `GET /`: status 200 and a greeting.
pub fn hello() -> (reply: Reply)
    ensures
        reply.status == 200,
        reply.headers@.len() == 0,
        reply.body@ == "Hello world!"@,
{
    Reply { status: 200, headers: Vec::new(), body: String::from_str("Hello world!") }
}

/// The answer to `GET /hey`: status 200 and another greeting.
pub fn manual_hello() -> (reply: Reply)
    ensures
        reply.status == 200,
        reply.headers@.len() == 0,
        reply.body@ == "Hey there!"@,
{
    Reply { status: 200, headers: Vec::new(), body: String::from_str("Hey there!") }
}

/// The name under which `echo` returns a request header.
pub open spec fn echoed_name(name: Seq<char>) -> Seq<char> {
    "req_"@ + name
}

/// A header value made only of visible ASCII characters and tabs, the
/// values that can be read as text.
pub open spec fn visible_ascii(value: Seq<u8>) -> bool {
    forall|i: int| 0 <= i < value.len() ==> {
        let b = #[trigger] value[i];
        (32 <= b < 127) || b == 9
    }
}

/// The answer to `POST /echo`: status 200, every request header returned in
/// order under its name prefixed with `req_`, and the request body. Every
/// header value is read as text, which fails on a value that is not visible
/// ASCII, so such values are left out.
pub fn echo(headers: &Vec<HttpHeader>, body: String) -> (reply: Reply)
    requires
        forall|i: int| 0 <= i < headers@.len() ==> visible_ascii(#[trigger] headers@[i].value@),
    ensures
        reply.status == 200,
        reply.headers@.len() == headers@.len(),
        forall|i: int| 0 <= i < headers@.len() ==> {
            &&& (#[trigger] reply.headers@[i]).name@ == echoed_name(headers@[i].name@)
            &&& reply.headers@[i].value@ == headers@[i].value@
        },
        reply.body@ == body@,
{
    let mut echoed: Vec<HttpHeader> = Vec::new();
    let mut i: usize = 0;
    while i < headers.len()
        invariant
            0 <= i <= headers@.len(),
            echoed@.len() == i,
            forall|j: int| 0 <= j < i ==> {
                &&& (#[trigger] echoed@[j]).name@ == echoed_name(headers@[j].name@)
                &&& echoed@[j].value@ == headers@[j].value@
            },
        decreases headers@.len() - i,
    {
        let header = &headers[i];
        let mut name = String::from_str("req_");
        name.append(header.name.as_str());
        echoed.push(HttpHeader { name, value: slice_to_vec(header.value.as_slice()) });
        i = i + 1;
    }
    Reply { status: 200, headers: echoed, body }
}

/// The request that `POST /serviceb` forwards: to the configured URL, with
/// the incoming headers and body.
pub struct ForwardRequest {
    pub url: String,
    pub headers: Vec<HttpHeader>,
    pub body: String,
}

/// Where the forwarding of a request to service B stands.
pub enum ServiceBState {
    /// The forwarded request is being built.
    Building,
    /// The forwarded request is being sent.
    Sending,
    /// Service B answered with these headers; its body is being read.
    ReadingBody(Vec<HttpHeader>),
    /// The answer has been decided.
    Finished,
}

/// What the outside work reports back.
pub enum ServiceBEvent {
    /// Building the request succeeded, or failed with this text.
    Built(Result<(), String>),
    /// Service B answered with these headers, or the call failed.
    Sent(Result<Vec<HttpHeader>, String>),
    /// The body of service B's answer, or the failure to read it.
    BodyRead(Result<String, String>),
}

/// What the outside work does next.
pub enum ServiceBAction {
    /// Send the built request.
    Send,
    /// Read the body of the answer.
    ReadBody,
    /// Answer the client.
    Respond(Result<Reply, ActixDemoError>),
}

/// The events that each state waits for.
pub open spec fn serviceb_accepts(state: ServiceBState, event: ServiceBEvent) -> bool {
    match (state, event) {
        (ServiceBState::Building, ServiceBEvent::Built(_)) => true,
        (ServiceBState::Sending, ServiceBEvent::Sent(_)) => true,
        (ServiceBState::ReadingBody(_), ServiceBEvent::BodyRead(_)) => true,
        _ => false,
    }
}

/// One step of the forwarding: a failure ends it with an error whose
/// context names the failed stage; a success moves to the next stage; the
/// body of service B's answer is returned with its headers and status 200.
pub open spec fn serviceb_transition(state: ServiceBState, event: ServiceBEvent, next: (ServiceBState, ServiceBAction)) -> bool {
    match (state, event) {
        (ServiceBState::Building, ServiceBEvent::Built(Ok(()))) => next == (ServiceBState::Sending, ServiceBAction::Send),
        (ServiceBState::Building, ServiceBEvent::Built(Err(e))) => {
            &&& next.0 is Finished
            &&& next.1 matches ServiceBAction::Respond(Err(err))
            &&& is_context_error(err, "Error creating request for service B"@, e@)
        },
        (ServiceBState::Sending, ServiceBEvent::Sent(Ok(headers))) => next == (ServiceBState::ReadingBody(headers), ServiceBAction::ReadBody),
        (ServiceBState::Sending, ServiceBEvent::Sent(Err(e))) => {
            &&& next.0 is Finished
            &&& next.1 matches ServiceBAction::Respond(Err(err))
            &&& is_context_error(err, "Error requesting service B"@, e@)
        },
        (ServiceBState::ReadingBody(headers), ServiceBEvent::BodyRead(Ok(body))) => {
            next == (ServiceBState::Finished, ServiceBAction::Respond(Ok(Reply { status: 200, headers, body })))
        },
        (ServiceBState::ReadingBody(_), ServiceBEvent::BodyRead(Err(e))) => {
            &&& next.0 is Finished
            &&& next.1 matches ServiceBAction::Respond(Err(err))
            &&& is_context_error(err, "Error extract body from service B response"@, e@)
        },
        _ => false,
    }
}

impl ServiceBState {
    /// Whether this state waits for `event`.
    pub fn accepts(&self, event: &ServiceBEvent) -> (ok: bool)
        ensures
            ok == serviceb_accepts(*self, *event),
    {
        match (self, event) {
            (ServiceBState::Building, ServiceBEvent::Built(_)) => true,
            (ServiceBState::Sending, ServiceBEvent::Sent(_)) => true,
            (ServiceBState::ReadingBody(_), ServiceBEvent::BodyRead(_)) => true,
            _ => false,
        }
    }
}

/// The start of `POST /serviceb`: the request to build, forwarding the
/// incoming headers and body to service B's configured URL.
pub fn serviceb(conf: &Configuration, headers: Vec<HttpHeader>, body: String) -> (start: (ServiceBState, ForwardRequest))
    ensures
        start.0 is Building,
        start.1.url@ == conf.service_b.url@,
        start.1.headers == headers,
        start.1.body == body,
{
    (ServiceBState::Building, ForwardRequest { url: conf.service_b.url.clone(), headers, body })
}

/// The next state and action of `POST /serviceb` once `event` is reported.
pub fn serviceb_step(state: ServiceBState, event: ServiceBEvent) -> (next: (ServiceBState, ServiceBAction))
    requires
        serviceb_accepts(state, event),
    ensures
        serviceb_transition(state, event, next),
{
    match (state, event) {
        (ServiceBState::Building, ServiceBEvent::Built(built)) => match context(built, "Error creating request for service B") {
            Ok(()) => (ServiceBState::Sending, ServiceBAction::Send),
            Err(err) => (ServiceBState::Finished, ServiceBAction::Respond(Err(err))),
        },
        (ServiceBState::Sending, ServiceBEvent::Sent(sent)) => match context(sent, "Error requesting service B") {
            Ok(headers) => (ServiceBState::ReadingBody(headers), ServiceBAction::ReadBody),
            Err(err) => (ServiceBState::Finished, ServiceBAction::Respond(Err(err))),
        },
        (ServiceBState::ReadingBody(headers), ServiceBEvent::BodyRead(read)) => match context(read, "Error extract body from service B response") {
            Ok(body) => (ServiceBState::Finished, ServiceBAction::Respond(Ok(Reply { status: 200, headers, body }))),
            Err(err) => (ServiceBState::Finished, ServiceBAction::Respond(Err(err))),
        },
        _ => {
            assert(false);
            (ServiceBState::Finished, ServiceBAction::Send)
        },
    }
}

/// Each waiting state takes the report of its own stage, whatever it
/// says, and a finished forwarding takes no report.
pub proof fn lemma_serviceb_accepts_own_stage(
    headers: Vec<HttpHeader>,
    built: Result<(), String>,
    sent: Result<Vec<HttpHeader>, String>,
    read: Result<String, String>,
    event: ServiceBEvent,
)
    ensures
        serviceb_accepts(ServiceBState::Building, ServiceBEvent::Built(built)),
        serviceb_accepts(ServiceBState::Sending, ServiceBEvent::Sent(sent)),
        serviceb_accepts(ServiceBState::ReadingBody(headers), ServiceBEvent::BodyRead(read)),
        !serviceb_accepts(ServiceBState::Finished, event),
{
}

/// A forwarding whose three stages all succeed answers the client with
/// status 200, service B's headers and service B's body.
pub proof fn lemma_serviceb_success_answers_with_service_b(
    headers: Vec<HttpHeader>,
    body: String,
    first: (ServiceBState, ServiceBAction),
    second: (ServiceBState, ServiceBAction),
    third: (ServiceBState, ServiceBAction),
)
    requires
        serviceb_transition(ServiceBState::Building, ServiceBEvent::Built(Ok(())), first),
        serviceb_transition(first.0, ServiceBEvent::Sent(Ok(headers)), second),
        serviceb_transition(second.0, ServiceBEvent::BodyRead(Ok(body)), third),
    ensures
        first.1 is Send,
        second.1 is ReadBody,
        third.0 is Finished,
        third.1 matches ServiceBAction::Respond(Ok(reply)) && reply.status == 200 && reply.headers == headers
            && reply.body == body,
{
}

/// Every step of the forwarding answers the client exactly when it ends
/// the forwarding.
pub proof fn lemma_serviceb_responds_when_finished(state: ServiceBState, event: ServiceBEvent, next: (ServiceBState, ServiceBAction))
    requires
        serviceb_transition(state, event, next),
    ensures
        (next.0 is Finished) <==> (next.1 is Respond),
{
}

} // verus!
