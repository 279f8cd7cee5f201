use vstd::prelude::*;

use vstd::string::StringSliceAdditionalSpecFns;

use crate::http::{HttpHeader, Reply};

verus! {

/// An error reported together with the context in which it arose: the
/// context message comes first, then the display of the error it wraps.
pub struct ContextError {
    pub message: String,
    pub source: Option<String>,
}

/// The error type of the request handlers.
pub enum ActixDemoError {
    UnexpectedError(ContextError),
}

/// The body of an error response for the given message and source text.
pub open spec fn error_body(message: Seq<char>, source: Seq<char>) -> Seq<char> {
    "{ \"message\": \""@ + message + "\", \"source\": \""@ + source + "\" }"@
}

/// `err` reports `message` as its context and `source` as the error it wraps.
pub open spec fn is_context_error(err: ActixDemoError, message: Seq<char>, source: Seq<char>) -> bool {
    match err {
        ActixDemoError::UnexpectedError(e) => {
            &&& e.message@ == message
            &&& e.source matches Some(s) && s@ == source
        },
    }
}

/// Attaches a context message to the error of an outcome, as `anyhow`'s
/// `Context::context` does: a success passes through unchanged, a failure
/// becomes an error whose message is the context and whose source is the
/// failure's text.
pub fn context<T>(outcome: Result<T, String>, message: &str) -> (checked: Result<T, ActixDemoError>)
    ensures
        outcome matches Ok(v) ==> checked == Ok::<T, ActixDemoError>(v),
        outcome matches Err(e) ==> checked matches Err(err) && is_context_error(err, message@, e@),
{
    match outcome {
        Ok(v) => Ok(v),
        Err(e) => Err(ActixDemoError::UnexpectedError(ContextError {
            message: String::from_str(message),
            source: Some(e),
        })),
    }
}

impl ActixDemoError {
    pub open spec fn message_view(self) -> Seq<char> {
        match self {
            ActixDemoError::UnexpectedError(e) => e.message@,
        }
    }

    /// The displayed source, or the empty text where there is none.
    pub open spec fn source_or_empty(self) -> Seq<char> {
        match self {
            ActixDemoError::UnexpectedError(e) => match e.source {
                Some(s) => s@,
                None => Seq::empty(),
            },
        }
    }

    /// The status every handler error is answered with.
    pub fn status_code(&self) -> (status: u16)
        ensures
            status == 500,
    {
        500
    }

    /// The text of the error: its context message.
    pub fn to_string(&self) -> (text: String)
        ensures
            text@ == self.message_view(),
    {
        match self {
            ActixDemoError::UnexpectedError(e) => e.message.clone(),
        }
    }

    /// The text of the error that this one wraps, if any.
    pub fn source(&self) -> (source: Option<String>)
        ensures
            source matches Some(s) ==> s@ == self.source_or_empty(),
            source is None <==> self->UnexpectedError_0.source is None,
    {
        match self {
            ActixDemoError::UnexpectedError(e) => match &e.source {
                Some(s) => Some(s.clone()),
                None => None,
            },
        }
    }

    /// The JSON response for the error: status 500, a JSON content type and
    /// a body naming the message and the source.
    pub fn error_response(&self) -> (reply: Reply)
        ensures
            reply.status == 500,
            reply.headers@.len() == 1,
            reply.headers@[0].name@ == "content-type"@,
            reply.headers@[0].value@ == "application/json".spec_bytes(),
            reply.body@ == error_body(self.message_view(), self.source_or_empty()),
    {
        let (message, source) = match self {
            ActixDemoError::UnexpectedError(e) => (&e.message, &e.source),
        };
        let mut body = String::from_str("{ \"message\": \"");
        body.append(message.as_str());
        body.append("\", \"source\": \"");
        match source {
            Some(s) => body.append(s.as_str()),
            None => {},
        }
        body.append("\" }");
        let mut headers: Vec<HttpHeader> = Vec::new();
        headers.push(HttpHeader {
            name: String::from_str("content-type"),
            value: "application/json".as_bytes_vec(),
        });
        proof {
            assert(Seq::<char>::empty() + "\", \"source\": \""@ =~= "\", \"source\": \""@);
        }
        Reply { status: self.status_code(), headers, body }
    }
}

/// The error body holds the whole message and the whole source: it is 31
/// characters longer than both together, the message stands right after
/// its 14-character opening and the source right after the 14-character
/// text that follows the message, so both can be read back from the body.
pub proof fn lemma_error_body_holds_message_and_source(message: Seq<char>, source: Seq<char>)
    ensures
        error_body(message, source).len() == message.len() + source.len() + 31,
        error_body(message, source).subrange(14, 14 + message.len() as int) == message,
        error_body(message, source).subrange(28 + message.len() as int, 28 + message.len() + source.len() as int) == source,
        error_body(message, source).take(14) =~= seq!['{', ' ', '"', 'm', 'e', 's', 's', 'a', 'g', 'e', '"', ':', ' ', '"'],
{
    reveal_strlit("{ \"message\": \"");
    reveal_strlit("\", \"source\": \"");
    reveal_strlit("\" }");
    let body = error_body(message, source);
    assert(body.subrange(14, 14 + message.len() as int) =~= message);
    assert(body.subrange(28 + message.len() as int, 28 + message.len() + source.len() as int) =~= source);
}

/// A failure reported through `context` is answered with a body that
/// names the context message and the text of the failure.
pub proof fn lemma_context_error_body(err: ActixDemoError, message: Seq<char>, source: Seq<char>)
    requires
        is_context_error(err, message, source),
    ensures
        error_body(err.message_view(), err.source_or_empty()) == error_body(message, source),
{
}

} // verus!
