//! A server library for the Gemini protocol: bounded request-line framing,
//! response-header encoding, and the decisions of one connection's lifecycle.
use vstd::prelude::*;

pub mod builder;
pub mod connection;
pub mod mime_type;
pub mod pem;
pub mod request;
pub mod response;
pub mod uri;

pub use builder::Builder;
pub use connection::{step, Action, CloseReason, Event, Phase};
pub use mime_type::{gemini_mime, GEMINI_MIME_STR};
pub use pem::{certificate_chain, first_pkcs8_key, PemError};
pub use request::{parse_request, Request, RequestError};
pub use response::{encode_header, encode_response, ResponseHeader, Status};

verus! {

/// The longest URI, in bytes, that a request line may carry.
pub const REQUEST_URI_MAX_LEN: usize = 1024;

/// The most bytes read for one request line: the URI and its CR LF.
pub const REQUEST_LINE_MAX_LEN: usize = 1026;

/// The well-known port of the protocol.
pub const GEMINI_PORT: u16 = 1965;

} // verus!
