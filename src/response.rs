//! The response header, and the bytes that carry a response on the wire.
use vstd::prelude::*;
use vstd::utf8::encode_utf8;

use crate::request::{CR, LF};

verus! {

pub const SP: u8 = 32;

/// The meta text of the response sent when a handler fails. It says nothing of
/// the cause.
pub const SERVER_ERROR_META: &'static str = "Internal server error";

/// A response status code.
#[derive(Clone, Copy, Debug, PartialEq, Eq, Structural)]
pub struct Status {
    pub code: u8,
}

impl Status {
    /// The status of a successful response.
    pub fn success() -> (r: Status)
        ensures
            r.code == 20,
    {
        Status { code: 20 }
    }

    /// The status of a permanent failure, used for server errors.
    pub fn permanent_failure() -> (r: Status)
        ensures
            r.code == 50,
    {
        Status { code: 50 }
    }

    /// The status with the given code.
    pub fn new(code: u8) -> (r: Status)
        ensures
            r.code == code,
    {
        Status { code }
    }

    /// The numeric code.
    pub fn code(&self) -> (r: u8)
        ensures
            r == self.code,
    {
        self.code
    }
}

/// The header of a response: a status and its meta text (a MIME type on
/// success, a message on failure). The meta text is sent verbatim.
pub struct ResponseHeader {
    pub status: Status,
    pub meta: String,
}

/// The ASCII decimal digits of `n`, with no leading zero.
pub open spec fn decimal(n: nat) -> Seq<u8>
    decreases n,
{
    if n < 10 {
        seq![(48 + n) as u8]
    } else {
        decimal(n / 10) + seq![(48 + n % 10) as u8]
    }
}

/// The header line: `<status> <meta>` followed by CR LF.
pub open spec fn header_bytes(status: u8, meta: Seq<char>) -> Seq<u8> {
    decimal(status as nat) + seq![SP] + encode_utf8(meta) + seq![CR, LF]
}

/// The bytes of a whole response: the header line, then the body as it is.
pub open spec fn response_bytes(status: u8, meta: Seq<char>, body: Seq<u8>) -> Seq<u8> {
    header_bytes(status, meta) + body
}

impl ResponseHeader {
    /// A header with the given status and meta text.
    pub fn new(status: Status, meta: String) -> (r: ResponseHeader)
        ensures
            r.status == status,
            r.meta@ == meta@,
    {
        ResponseHeader { status, meta }
    }

    /// The header sent when a handler fails or panics: a permanent failure,
    /// with a fixed message that reveals nothing of the cause.
    pub fn server_error() -> (r: ResponseHeader)
        ensures
            r.status.code == 50,
            r.meta@ == SERVER_ERROR_META@,
            r.meta@.len() > 0,
    {
        proof {
            reveal_strlit("Internal server error");
        }
        ResponseHeader { status: Status::permanent_failure(), meta: SERVER_ERROR_META.to_owned() }
    }
}

/// Appends the decimal digits of `n`.
fn push_decimal(out: &mut Vec<u8>, n: u8)
    ensures
        final(out)@ == old(out)@ + decimal(n as nat),
{
    proof {
        reveal_with_fuel(decimal, 3);
    }
    if n < 10 {
        out.push(48 + n);
    } else if n < 100 {
        out.push(48 + n / 10);
        out.push(48 + n % 10);
        assert(decimal(n as nat) == seq![(48 + n / 10) as u8, (48 + n % 10) as u8]);
    } else {
        out.push(48 + n / 100);
        out.push(48 + (n / 10) % 10);
        out.push(48 + n % 10);
        assert(((n / 10) as nat) / 10 == (n / 100) as nat);
        assert(decimal(n as nat) == seq![(48 + n / 100) as u8, (48 + (n / 10) % 10) as u8, (48 + n % 10) as u8]);
    }
}

/// Appends the bytes of `b`.
fn push_bytes(out: &mut Vec<u8>, b: &[u8])
    ensures
        final(out)@ == old(out)@ + b@,
{
    let ghost start = out@;
    let mut i: usize = 0;
    while i < b.len()
        invariant
            i <= b@.len(),
            out@ == start + b@.subrange(0, i as int),
        decreases b@.len() - i,
    {
        out.push(b[i]);
        i = i + 1;
        assert(out@ == start + b@.subrange(0, i as int));
    }
    assert(b@.subrange(0, b@.len() as int) =~= b@);
}

/// The header line of a response, as it goes on the wire.
pub fn encode_header(header: &ResponseHeader) -> (r: Vec<u8>)
    ensures
        r@ == header_bytes(header.status.code, header.meta@),
{
    let mut out: Vec<u8> = Vec::new();
    push_decimal(&mut out, header.status.code);
    out.push(SP);
    push_bytes(&mut out, header.meta.as_str().as_bytes());
    out.push(CR);
    out.push(LF);
    out
}

/// A whole response held in memory: the header line, then the body.
pub fn encode_response(header: &ResponseHeader, body: &[u8]) -> (r: Vec<u8>)
    ensures
        r@ == response_bytes(header.status.code, header.meta@, body@),
{
    let mut out = encode_header(header);
    push_bytes(&mut out, body);
    out
}

} // verus!
