//! Request executor: the verified core of a desktop API-testing tool.
//!
//! Given a method name, a URL, a header map and an optional body, the
//! executor validates the method, hands a prepared request to the network
//! transport, and normalizes the transport's outcome into a plain response
//! value (status, elapsed milliseconds, headers, body text, byte size).
//! The transport itself (connections, TLS, redirects) is an outside
//! collaborator; everything the executor decides or computes is verified
//! here.

pub mod executor;
pub mod headers;
pub mod method;
pub mod model;

pub use executor::{materialize, prepare, ExecError, PreparedRequest, TransportOutcome};
pub use method::Method;
pub use model::{ApiRequest, ApiResponse};
