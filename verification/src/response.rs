//! Error taxonomy and response translation.
//!
//! Every failure of one dispatch cycle is a structured error carrying its
//! kind, the HTTP status when a server reported one, and a human-readable
//! message; lower layers never recover silently and nothing is retried. The
//! translation functions here classify a raw transport result and the
//! outcome of body parsing into that uniform form.

use vstd::prelude::*;
use vstd::string::*;
use crate::numfmt::{dec_digits, u16_to_string};

verus! {

/// The kind of a failure, kept inspectable for programmatic branching even
/// after the message has been wrapped with context.
#[derive(Debug, Clone, Copy, PartialEq, Eq, Structural)]
pub enum ErrorKind {
    /// Malformed or missing arguments, or an unknown operation; never sent to
    /// the network.
    Validation,
    /// A connection or timeout failure underneath the request.
    Transport,
    /// A non-success HTTP status, carrying the status and the body verbatim.
    Server,
    /// A response body that did not match the expected shape.
    Serialization,
}

/// A structured failure: its kind, the HTTP status when a server reported
/// one, and the full human-readable message.
#[derive(Debug, Clone)]
pub struct SdaError {
    /// What failed.
    pub kind: ErrorKind,
    /// The HTTP status, for server-reported failures.
    pub status: Option<u16>,
    /// The message, already carrying every layer of context.
    pub message: String,
}

/// Whether an HTTP status is in the success range.
pub open spec fn is_success_status(status: int) -> bool {
    200 <= status < 300
}

/// The message of a server-reported failure: the context, the numeric
/// status, and the body verbatim; when the body is empty the message states
/// only the status.
pub open spec fn server_error_message(context: Seq<char>, status: nat, body: Seq<char>) -> Seq<
    char,
> {
    if body.len() == 0 {
        context + ": HTTP "@ + dec_digits(status)
    } else {
        context + ": HTTP "@ + dec_digits(status) + " - "@ + body
    }
}

/// The message of a wrapped failure: the outer context joined to the inner
/// detail.
pub open spec fn wrapped_message(context: Seq<char>, detail: Seq<char>) -> Seq<char> {
    context + ": "@ + detail
}

/// A transport failure with its context.
pub fn transport_error(context: &str, detail: &str) -> (e: SdaError)
    ensures
        e.kind == ErrorKind::Transport,
        e.status is None,
        e.message@ == wrapped_message(context@, detail@),
{
    let mut m = String::from_str(context);
    m.append(": ");
    m.append(detail);
    SdaError { kind: ErrorKind::Transport, status: Option::None, message: m }
}

/// A serialization failure with its context.
pub fn serialization_error(context: &str, detail: &str) -> (e: SdaError)
    ensures
        e.kind == ErrorKind::Serialization,
        e.status is None,
        e.message@ == wrapped_message(context@, detail@),
{
    let mut m = String::from_str(context);
    m.append(": ");
    m.append(detail);
    SdaError { kind: ErrorKind::Serialization, status: Option::None, message: m }
}

/// A validation failure.
pub fn validation_error(message: &str) -> (e: SdaError)
    ensures
        e.kind == ErrorKind::Validation,
        e.status is None,
        e.message@ == message@,
{
    SdaError { kind: ErrorKind::Validation, status: Option::None, message: String::from_str(message) }
}

/// Wraps a failure with one more layer of context. The kind and the status
/// stay inspectable; only the message grows.
pub fn wrap_error(context: &str, e: SdaError) -> (r: SdaError)
    ensures
        r.kind == e.kind,
        r.status == e.status,
        r.message@ == wrapped_message(context@, e.message@),
{
    let mut m = String::from_str(context);
    m.append(": ");
    m.append(e.message.as_str());
    SdaError { kind: e.kind, status: e.status, message: m }
}

/// Branches on the raw response status: a success-range status hands the
/// body on unchanged, any other status becomes a server failure whose
/// message carries the context, the status and the body verbatim, so that
/// server-side validation detail is never discarded.
pub fn handle_response(status: u16, body: String, context: &str) -> (r: Result<String, SdaError>)
    ensures
        is_success_status(status as int) ==> (r matches Ok(b) && b == body),
        !is_success_status(status as int) ==> (r matches Err(e) && e.kind == ErrorKind::Server
            && e.status == Option::Some(status) && e.message@ == server_error_message(
            context@,
            status as nat,
            body@,
        )),
{
    if 200 <= status && status < 300 {
        Result::Ok(body)
    } else {
        let mut m = String::from_str(context);
        m.append(": HTTP ");
        let s = u16_to_string(status);
        m.append(s.as_str());
        if !body.as_str().is_empty() {
            m.append(" - ");
            m.append(body.as_str());
        }
        Result::Err(SdaError { kind: ErrorKind::Server, status: Option::Some(status), message: m })
    }
}

/// Classifies the raw result of one network round trip: a transport failure
/// is surfaced with the send context, a non-success status with the server
/// context, and a success-range status hands the body on.
pub fn classify_response(
    transport: Result<(u16, String), String>,
    send_context: &str,
    server_context: &str,
) -> (r: Result<String, SdaError>)
    ensures
        transport matches Err(d) ==> (r matches Err(e) && e.kind == ErrorKind::Transport
            && e.status is None && e.message@ == wrapped_message(send_context@, d@)),
        transport matches Ok(p) ==> ((is_success_status(p.0 as int) ==> (r matches Ok(b) && b
            == p.1)) && (!is_success_status(p.0 as int) ==> (r matches Err(e) && e.kind
            == ErrorKind::Server && e.status == Option::Some(p.0) && e.message@
            == server_error_message(server_context@, p.0 as nat, p.1@)))),
{
    match transport {
        Result::Ok((status, body)) => handle_response(status, body, server_context),
        Result::Err(detail) => Result::Err(transport_error(send_context, detail.as_str())),
    }
}

/// Translates the outcome of parsing a success body into the expected result
/// shape: a parse failure becomes a serialization failure carrying the parse
/// detail, never a silent default value; a parsed value passes through
/// unchanged.
pub fn translate_parsed<T>(parsed: Result<T, String>, parse_context: &str) -> (r: Result<
    T,
    SdaError,
>)
    ensures
        parsed matches Ok(v) ==> (r matches Ok(w) && w == v),
        parsed matches Err(d) ==> (r matches Err(e) && e.kind == ErrorKind::Serialization
            && e.status is None && e.message@ == wrapped_message(parse_context@, d@)),
{
    match parsed {
        Result::Ok(v) => Result::Ok(v),
        Result::Err(detail) => Result::Err(serialization_error(parse_context, detail.as_str())),
    }
}

} // verus!
