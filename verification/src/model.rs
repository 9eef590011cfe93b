//! The request and response values the executor exchanges with its caller,
//! and their mathematical models.

use vstd::prelude::*;

use crate::headers::{headers_as_map, unique_keys};

verus! {

/// The byte length of a text: the length of its UTF-8 encoding.
pub open spec fn byte_len(s: Seq<char>) -> nat {
    vstd::utf8::encode_utf8(s).len()
}

/// A single outgoing request as the caller describes it: a method name, an
/// absolute URL, a header map (keys unique, order irrelevant) and an
/// optional payload. It lives for one invocation only.
#[derive(Debug, PartialEq)]
pub struct ApiRequest {
    pub method: String,
    pub url: String,
    pub headers: Vec<(String, String)>,
    pub body: Option<String>,
}

impl ApiRequest {
    /// The header mapping holds each name once.
    pub open spec fn wf(self) -> bool {
        unique_keys(self.headers.deep_view())
    }
}

/// The normalized response handed back on success: status code, elapsed
/// wall-clock milliseconds of the network exchange, the materialized
/// headers, the body decoded as text, and the body's byte length.
#[derive(Debug, PartialEq)]
pub struct ApiResponse {
    pub status: u16,
    pub time_ms: u64,
    pub headers: Vec<(String, String)>,
    pub body: String,
    pub size_bytes: usize,
}

/// The mathematical model of a response; the headers stand as the mapping
/// they denote, since their order carries no meaning.
pub ghost struct ResponseModel {
    pub status: u16,
    pub time_ms: u64,
    pub headers: Map<Seq<char>, Seq<char>>,
    pub body: Seq<char>,
    pub size_bytes: nat,
}

impl ApiResponse {
    /// What this response is, mathematically.
    pub open spec fn model(self) -> ResponseModel {
        ResponseModel {
            status: self.status,
            time_ms: self.time_ms,
            headers: headers_as_map(self.headers.deep_view()),
            body: self.body@,
            size_bytes: self.size_bytes as nat,
        }
    }

    /// The response invariant: `size_bytes` records exactly the UTF-8 byte
    /// length of `body`, and the header listing holds each name once.
    pub open spec fn wf(self) -> bool {
        &&& self.size_bytes as nat == byte_len(self.body@)
        &&& unique_keys(self.headers.deep_view())
    }
}

} // verus!
