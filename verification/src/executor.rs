//! The request executor: validate the method, hand a prepared request to
//! the transport, and normalize the transport's outcome into a response.
//!
//! The network exchange itself is the hosting shell's affair; the executor
//! owns every decision around it. `prepare` stands before the exchange:
//! it either resolves the method and passes the request through, or rejects
//! it with a validation failure so that no network activity happens at all.
//! `materialize` stands after the exchange: it turns whatever the transport
//! reported into either the normalized response or a transport failure.

use vstd::prelude::*;

use crate::headers::{collapse_headers, header_lookup, headers_as_map, unique_keys};
use crate::method::{method_of, Method};
use crate::model::{byte_len, ApiRequest, ApiResponse, ResponseModel};

verus! {

/// The two failures the executor can report. Both project to a plain
/// message string at the shell boundary.
#[derive(Debug, PartialEq)]
pub enum ExecError {
    /// The method named no supported verb; detected before any I/O.
    Validation(String),
    /// The network layer failed; the message is the transport's own.
    Transport(String),
}

/// The message a rejected method produces.
pub open spec fn validation_message(method: Seq<char>) -> Seq<char> {
    "Unsupported method: "@ + method
}

impl ExecError {
    /// The human-readable message of this failure.
    pub open spec fn spec_message(self) -> Seq<char> {
        match self {
            ExecError::Validation(m) => m@,
            ExecError::Transport(m) => m@,
        }
    }

    /// Project the failure to the single message string the shell shows.
    pub fn message(self) -> (r: String)
        ensures
            r@ == self.spec_message(),
    {
        match self {
            ExecError::Validation(m) => m,
            ExecError::Transport(m) => m,
        }
    }
}

/// A request the executor has validated and is ready to hand to the
/// transport: the resolved verb and the caller's URL, headers and payload,
/// passed through unchanged.
#[derive(Debug, PartialEq)]
pub struct PreparedRequest {
    pub method: Method,
    pub url: String,
    pub headers: Vec<(String, String)>,
    pub body: Option<String>,
}

impl PreparedRequest {
    /// The header mapping holds each name once.
    pub open spec fn wf(self) -> bool {
        unique_keys(self.headers.deep_view())
    }
}

/// What the transport reported for one exchange: either the full response
/// (status, elapsed whole milliseconds of the exchange, raw header pairs as
/// they arrived, body decoded as text), or a failure with the transport's
/// own message.
#[derive(Debug, PartialEq)]
pub enum TransportOutcome {
    Success { status: u16, elapsed_ms: u64, headers: Vec<(String, String)>, body: String },
    Failure { message: String },
}

/// Validate a request's method and pass everything else through.
///
/// The method is matched case-insensitively against the allow-list; on a
/// match the prepared request carries the resolved verb and the caller's
/// URL, headers and body exactly as given. Any other method is rejected
/// with a validation failure naming it, before any network activity.
pub fn prepare(req: ApiRequest) -> (r: Result<PreparedRequest, ExecError>)
    ensures
        method_of(req.method@) matches Some(m) ==> (r matches Ok(p) && p.method == m
            && p.url@ == req.url@ && p.headers.deep_view() == req.headers.deep_view()
            && p.body.deep_view() == req.body.deep_view() && (req.wf() ==> p.wf())),
        method_of(req.method@) is None ==> (r matches Err(e)
            && e matches ExecError::Validation(msg) && msg@ == validation_message(req.method@)),
{
    match Method::resolve(req.method.as_str()) {
        Some(m) => Ok(
            PreparedRequest { method: m, url: req.url, headers: req.headers, body: req.body },
        ),
        None => {
            let msg = String::from_str("Unsupported method: ").concat(req.method.as_str());
            Err(ExecError::Validation(msg))
        },
    }
}

/// The response a completed exchange materializes to: status and elapsed
/// time as reported, the mapping the arrived headers denote, the body as
/// decoded, and `size_bytes` as the body's UTF-8 byte length.
pub open spec fn materialized_response(
    status: u16,
    elapsed_ms: u64,
    headers: Seq<(Seq<char>, Seq<char>)>,
    body: Seq<char>,
) -> ResponseModel {
    ResponseModel {
        status,
        time_ms: elapsed_ms,
        headers: headers_as_map(headers),
        body,
        size_bytes: byte_len(body),
    }
}

/// Normalize the transport's outcome.
///
/// A completed exchange becomes the response value: status and elapsed
/// milliseconds exactly as the transport reported them, the header listing
/// collapsed to unique names — a name that arrived more than once keeps the
/// value of its last occurrence — the decoded body verbatim, and its byte
/// length as `size_bytes`. A failed exchange becomes a transport failure
/// carrying the transport's message verbatim; no partial response is
/// produced.
pub fn materialize(outcome: TransportOutcome) -> (r: Result<ApiResponse, ExecError>)
    ensures
        outcome matches TransportOutcome::Success { status, elapsed_ms, headers, body } ==> (
        r matches Ok(resp) && resp.model() == materialized_response(
            status,
            elapsed_ms,
            headers.deep_view(),
            body@,
        ) && (forall|k: Seq<char>|
            header_lookup(resp.headers.deep_view(), k) == header_lookup(
                headers.deep_view(),
                k,
            )) && resp.wf()),
        outcome matches TransportOutcome::Failure { message } ==> (r matches Err(e)
            && e matches ExecError::Transport(m) && m@ == message@),
{
    match outcome {
        TransportOutcome::Success { status, elapsed_ms, headers, body } => {
            let collapsed = collapse_headers(headers);
            proof {
                assert(headers_as_map(collapsed.deep_view()) =~= headers_as_map(
                    headers.deep_view(),
                ));
            }
            let size_bytes = body.as_str().as_bytes().len();
            Ok(ApiResponse { status, time_ms: elapsed_ms, headers: collapsed, body, size_bytes })
        },
        TransportOutcome::Failure { message } => Err(ExecError::Transport(message)),
    }
}

/// Round trip: a materialized response echoes its own exchange exactly —
/// the status, elapsed time, header mapping and body are the exchange's
/// own, and `size_bytes` is the byte length of that body.
pub proof fn lemma_response_echoes_exchange(
    status: u16,
    elapsed_ms: u64,
    headers: Seq<(Seq<char>, Seq<char>)>,
    body: Seq<char>,
)
    ensures
        materialized_response(status, elapsed_ms, headers, body).status == status,
        materialized_response(status, elapsed_ms, headers, body).time_ms == elapsed_ms,
        materialized_response(status, elapsed_ms, headers, body).headers == headers_as_map(
            headers,
        ),
        materialized_response(status, elapsed_ms, headers, body).body == body,
        materialized_response(status, elapsed_ms, headers, body).size_bytes == byte_len(body),
{
}

/// Invocations share no state: the response of an exchange is a function of
/// that exchange alone, so two exchanges that differ in the header mapping
/// or the body materialize responses that differ in the same way — neither
/// can corrupt the other's headers or body.
pub proof fn lemma_invocations_independent(
    s1: u16,
    e1: u64,
    h1: Seq<(Seq<char>, Seq<char>)>,
    b1: Seq<char>,
    s2: u16,
    e2: u64,
    h2: Seq<(Seq<char>, Seq<char>)>,
    b2: Seq<char>,
)
    ensures
        materialized_response(s1, e1, h1, b1).headers == headers_as_map(h1),
        materialized_response(s1, e1, h1, b1).body == b1,
        materialized_response(s2, e2, h2, b2).headers == headers_as_map(h2),
        materialized_response(s2, e2, h2, b2).body == b2,
        headers_as_map(h1) != headers_as_map(h2) ==> materialized_response(s1, e1, h1, b1).headers
            != materialized_response(s2, e2, h2, b2).headers,
        b1 != b2 ==> materialized_response(s1, e1, h1, b1).body != materialized_response(
            s2,
            e2,
            h2,
            b2,
        ).body,
{
}

} // verus!
