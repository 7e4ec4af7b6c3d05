//! The request line: how the bytes a client sends become a `Request`.
use vstd::prelude::*;

use crate::uri::{is_uri_reference, parse_uri_reference, uri_path_segments};
use crate::{REQUEST_LINE_MAX_LEN, REQUEST_URI_MAX_LEN};

verus! {

pub const CR: u8 = 13;

pub const LF: u8 = 10;

/// Why a request line was refused.
#[derive(Clone, Copy, Debug, PartialEq, Eq, Structural)]
pub enum RequestError {
    /// More than `REQUEST_URI_MAX_LEN` bytes came with no line feed within
    /// the byte budget of a request line.
    TooLong,
    /// The line ended without a CR LF, or the input ended, no longer than
    /// `REQUEST_URI_MAX_LEN` bytes, without a line feed.
    NotCrlfTerminated,
    /// The bytes before the CR LF are no URI reference.
    InvalidUri,
}

impl RequestError {
    /// A short description of the error.
    pub fn message(&self) -> (r: &'static str)
        ensures
            *self == RequestError::TooLong ==> r@ == "Request URI too long"@,
            *self == RequestError::NotCrlfTerminated ==> r@
                == "Request header not terminated with CRLF"@,
            *self == RequestError::InvalidUri ==> r@ == "Request URI is invalid"@,
    {
        match self {
            RequestError::TooLong => "Request URI too long",
            RequestError::NotCrlfTerminated => "Request header not terminated with CRLF",
            RequestError::InvalidUri => "Request URI is invalid",
        }
    }
}

/// A request: the URI the client sent, its path segments, and the first
/// certificate of the client's chain, if it offered one.
pub struct Request {
    uri: Vec<u8>,
    segments: Vec<String>,
    certificate: Option<Vec<u8>>,
}

pub struct RequestView {
    pub uri: Seq<u8>,
    pub segments: Seq<Seq<char>>,
    pub certificate: Option<Seq<u8>>,
}

pub open spec fn bytes_view(c: Option<Vec<u8>>) -> Option<Seq<u8>> {
    match c {
        Some(v) => Some(v@),
        None => None,
    }
}

impl View for Request {
    type V = RequestView;

    closed spec fn view(&self) -> RequestView {
        RequestView {
            uri: self.uri@,
            segments: self.segments@.map_values(|s: String| s@),
            certificate: bytes_view(self.certificate),
        }
    }
}

/// Position `i` holds the first line feed of the input, within the byte budget
/// of a request line.
pub open spec fn is_line_end(input: Seq<u8>, i: int) -> bool {
    &&& 0 <= i < input.len()
    &&& i < REQUEST_LINE_MAX_LEN
    &&& input[i] == LF
    &&& forall|j: int| 0 <= j < i ==> input[j] != LF
}

/// The URI that a request line carries, or why the line is refused. The line is
/// read up to the first line feed, and never further than its byte budget.
pub open spec fn request_line(input: Seq<u8>) -> Result<Seq<u8>, RequestError> {
    if exists|i: int| is_line_end(input, i) {
        let i = choose|i: int| is_line_end(input, i);
        if i >= 1 && input[i - 1] == CR {
            Ok(input.subrange(0, i - 1))
        } else {
            Err(RequestError::NotCrlfTerminated)
        }
    } else if input.len() > REQUEST_URI_MAX_LEN {
        Err(RequestError::TooLong)
    } else {
        Err(RequestError::NotCrlfTerminated)
    }
}

/// What parsing a request gives: the request's view, or the error.
pub open spec fn parse_outcome(input: Seq<u8>) -> Result<RequestView, RequestError> {
    match request_line(input) {
        Err(e) => Err(e),
        Ok(uri) => if is_uri_reference(uri) {
            Ok(RequestView { uri, segments: uri_path_segments(uri), certificate: None })
        } else {
            Err(RequestError::InvalidUri)
        },
    }
}

pub open spec fn outcome_view(r: Result<Request, RequestError>) -> Result<RequestView, RequestError> {
    match r {
        Ok(req) => Ok(req@),
        Err(e) => Err(e),
    }
}

proof fn lemma_line_end_unique(input: Seq<u8>, i: int, k: int)
    requires
        is_line_end(input, i),
        is_line_end(input, k),
    ensures
        i == k,
{
    if i < k {
        assert(input[i] != LF);
    } else if k < i {
        assert(input[k] != LF);
    }
}

/// A request line of at most `REQUEST_URI_MAX_LEN` bytes of URI, with no line
/// feed in it and ended by CR LF, parses to a request for exactly that URI,
/// whatever follows the line.
pub proof fn lemma_valid_line_parses(uri: Seq<u8>, rest: Seq<u8>)
    requires
        uri.len() <= REQUEST_URI_MAX_LEN,
        forall|j: int| 0 <= j < uri.len() ==> uri[j] != LF,
        is_uri_reference(uri),
    ensures
        parse_outcome(uri + seq![CR, LF] + rest) == Ok::<RequestView, RequestError>(
            RequestView { uri, segments: uri_path_segments(uri), certificate: None },
        ),
{
    let input = uri + seq![CR, LF] + rest;
    let i = uri.len() as int + 1;
    assert(input[i] == LF);
    assert(input[i - 1] == CR);
    assert forall|j: int| 0 <= j < i implies input[j] != LF by {
        if j < uri.len() {
            assert(input[j] == uri[j]);
        }
    }
    assert(is_line_end(input, i));
    let k = choose|k: int| is_line_end(input, k);
    lemma_line_end_unique(input, i, k);
    assert(input.subrange(0, i - 1) =~= uri);
}

/// Input of more than `REQUEST_URI_MAX_LEN` bytes with no line feed in its
/// first `REQUEST_LINE_MAX_LEN` bytes is refused as too long, never as a line
/// without CR LF.
pub proof fn lemma_overlong_line_too_long(input: Seq<u8>)
    requires
        input.len() > REQUEST_URI_MAX_LEN,
        forall|j: int| 0 <= j < input.len() && j < REQUEST_LINE_MAX_LEN ==> input[j] != LF,
    ensures
        parse_outcome(input) == Err::<RequestView, RequestError>(RequestError::TooLong),
{
    assert(!exists|k: int| is_line_end(input, k));
}

/// A line whose line feed, within the byte budget, has no CR before it is
/// refused as not CR LF terminated.
pub proof fn lemma_bare_lf_not_crlf(line: Seq<u8>, rest: Seq<u8>)
    requires
        line.len() < REQUEST_LINE_MAX_LEN,
        forall|j: int| 0 <= j < line.len() ==> line[j] != LF,
        line.len() == 0 || line.last() != CR,
    ensures
        parse_outcome(line + seq![LF] + rest) == Err::<RequestView, RequestError>(
            RequestError::NotCrlfTerminated,
        ),
{
    let input = line + seq![LF] + rest;
    let i = line.len() as int;
    assert(input[i] == LF);
    assert forall|j: int| 0 <= j < i implies input[j] != LF by {
        assert(input[j] == line[j]);
    }
    assert(is_line_end(input, i));
    let k = choose|k: int| is_line_end(input, k);
    lemma_line_end_unique(input, i, k);
    if i >= 1 {
        assert(input[i - 1] == line.last());
    }
}

impl Request {
    /// A request for a URI reference, with no certificate; `InvalidUri` when
    /// the bytes are no URI reference.
    pub fn from_uri(uri: Vec<u8>) -> (r: Result<Request, RequestError>)
        ensures
            is_uri_reference(uri@) ==> outcome_view(r) == Ok::<RequestView, RequestError>(
                RequestView { uri: uri@, segments: uri_path_segments(uri@), certificate: None },
            ),
            !is_uri_reference(uri@) ==> r == Err::<Request, RequestError>(RequestError::InvalidUri),
    {
        match parse_uri_reference(uri.as_slice()) {
            Some(segments) => Ok(Request { uri, segments, certificate: None }),
            None => Err(RequestError::InvalidUri),
        }
    }

    /// The URI reference, as the client sent it.
    pub fn uri(&self) -> (r: &[u8])
        ensures
            r@ == self@.uri,
    {
        self.uri.as_slice()
    }

    /// The segments of the URI's path.
    pub fn path_segments(&self) -> (r: &Vec<String>)
        ensures
            r@.map_values(|s: String| s@) == self@.segments,
    {
        &self.segments
    }

    /// The client's certificate, in DER, if it offered one.
    pub fn certificate(&self) -> (r: &Option<Vec<u8>>)
        ensures
            bytes_view(*r) == self@.certificate,
    {
        &self.certificate
    }

    /// Attaches the client's certificate; nothing else changes.
    pub fn set_cert(&mut self, cert: Option<Vec<u8>>)
        ensures
            final(self)@ == (RequestView { certificate: bytes_view(cert), ..old(self)@ }),
    {
        self.certificate = cert;
    }
}

/// Parses the bytes a client sent into a request. `input` may be the whole
/// stream or any prefix of it that runs through the first line feed or through
/// `REQUEST_LINE_MAX_LEN` bytes: nothing after that is read.
pub fn parse_request(input: &[u8]) -> (r: Result<Request, RequestError>)
    ensures
        outcome_view(r) == parse_outcome(input@),
{
    let n = input.len();
    let mut i: usize = 0;
    while i < n && i < REQUEST_LINE_MAX_LEN && input[i] != LF
        invariant
            i <= n,
            n == input@.len(),
            i <= REQUEST_LINE_MAX_LEN,
            forall|j: int| 0 <= j < i ==> input@[j] != LF,
        decreases n - i,
    {
        i = i + 1;
    }
    if i < n && i < REQUEST_LINE_MAX_LEN {
        assert(is_line_end(input@, i as int));
        proof {
            let k = choose|k: int| is_line_end(input@, k);
            lemma_line_end_unique(input@, i as int, k);
        }
        if i >= 1 && input[i - 1] == CR {
            let mut uri: Vec<u8> = Vec::new();
            let mut j: usize = 0;
            while j < i - 1
                invariant
                    j <= i - 1,
                    i < n,
                    n == input@.len(),
                    uri@ == input@.subrange(0, j as int),
                decreases i - 1 - j,
            {
                uri.push(input[j]);
                j = j + 1;
                assert(uri@ == input@.subrange(0, j as int));
            }
            Request::from_uri(uri)
        } else {
            Err(RequestError::NotCrlfTerminated)
        }
    } else {
        assert(!exists|k: int| is_line_end(input@, k)) by {
            if exists|k: int| is_line_end(input@, k) {
                let k = choose|k: int| is_line_end(input@, k);
                if k < i {
                    assert(input@[k] != LF);
                }
            }
        }
        if n > REQUEST_URI_MAX_LEN {
            Err(RequestError::TooLong)
        } else {
            Err(RequestError::NotCrlfTerminated)
        }
    }
}

} // verus!
