use northstar::{
    encode_header, encode_response, parse_request, RequestError, ResponseHeader, Status,
    REQUEST_LINE_MAX_LEN, REQUEST_URI_MAX_LEN,
};

fn uri_of(line: &[u8]) -> Vec<u8> {
    parse_request(line).unwrap().uri().to_vec()
}

#[test]
fn valid_line_parses_to_exact_uri() {
    assert_eq!(uri_of(b"gemini://host/\r\n"), b"gemini://host/".to_vec());
    assert_eq!(uri_of(b"gemini://example.org/a/b?q=1\r\n"), b"gemini://example.org/a/b?q=1".to_vec());
}

#[test]
fn bytes_after_the_line_are_ignored() {
    assert_eq!(uri_of(b"gemini://host/x\r\nmore data\r\n"), b"gemini://host/x".to_vec());
}

#[test]
fn longest_uri_is_accepted() {
    let mut line = b"gemini://host/".to_vec();
    while line.len() < REQUEST_URI_MAX_LEN {
        line.push(b'a');
    }
    let uri = line.clone();
    line.extend_from_slice(b"\r\n");
    assert_eq!(line.len(), REQUEST_LINE_MAX_LEN);
    assert_eq!(uri_of(&line), uri);
}

#[test]
fn overlong_line_is_too_long() {
    let line = vec![b'a'; 1100];
    assert_eq!(parse_request(&line).err(), Some(RequestError::TooLong));
    let exact = vec![b'a'; REQUEST_LINE_MAX_LEN];
    assert_eq!(parse_request(&exact).err(), Some(RequestError::TooLong));
}

#[test]
fn line_feed_beyond_budget_is_too_long() {
    let mut line = vec![b'a'; REQUEST_LINE_MAX_LEN];
    line.extend_from_slice(b"\r\n");
    assert_eq!(parse_request(&line).err(), Some(RequestError::TooLong));
}

#[test]
fn bare_line_feed_is_not_crlf() {
    assert_eq!(parse_request(b"GET /foo\n").err(), Some(RequestError::NotCrlfTerminated));
    assert_eq!(parse_request(b"\n").err(), Some(RequestError::NotCrlfTerminated));
}

#[test]
fn short_input_without_terminator_is_not_crlf() {
    assert_eq!(parse_request(b"gemini://host/").err(), Some(RequestError::NotCrlfTerminated));
    assert_eq!(parse_request(b"").err(), Some(RequestError::NotCrlfTerminated));
}

#[test]
fn invalid_uri_is_refused() {
    assert_eq!(parse_request(b"gemini://host/a b\r\n").err(), Some(RequestError::InvalidUri));
}

#[test]
fn path_segments_are_listed() {
    let req = parse_request(b"gemini://host/a/b\r\n").unwrap();
    assert_eq!(req.path_segments().clone(), vec!["a".to_string(), "b".to_string()]);
    assert_eq!(req.certificate().clone(), None);
}

#[test]
fn certificate_is_attached() {
    let mut req = parse_request(b"gemini://host/\r\n").unwrap();
    req.set_cert(Some(vec![1, 2, 3]));
    assert_eq!(req.certificate().clone(), Some(vec![1, 2, 3]));
    assert_eq!(req.uri().to_vec(), b"gemini://host/".to_vec());
}

#[test]
fn success_header_round_trips() {
    let header = ResponseHeader::new(Status::success(), "text/gemini".to_string());
    let bytes = encode_header(&header);
    assert_eq!(bytes, b"20 text/gemini\r\n".to_vec());
    let text = String::from_utf8(bytes).unwrap();
    let line = text.strip_suffix("\r\n").unwrap();
    let (code, meta) = line.split_once(' ').unwrap();
    assert_eq!(code.parse::<u8>().unwrap(), 20);
    assert_eq!(meta, "text/gemini");
}

#[test]
fn status_codes_are_decimal() {
    let one = ResponseHeader::new(Status::new(5), "x".to_string());
    assert_eq!(encode_header(&one), b"5 x\r\n".to_vec());
    let three = ResponseHeader::new(Status::new(200), "".to_string());
    assert_eq!(encode_header(&three), b"200 \r\n".to_vec());
    assert_eq!(Status::new(51).code(), 51);
}

#[test]
fn server_error_header_is_generic() {
    let header = ResponseHeader::server_error();
    assert_eq!(header.status.code(), 50);
    assert_eq!(encode_header(&header), b"50 Internal server error\r\n".to_vec());
}

#[test]
fn body_follows_header_unchanged() {
    let header = ResponseHeader::new(Status::success(), "text/gemini".to_string());
    let body = b"# Hello\n\nworld\n".to_vec();
    let wire = encode_response(&header, &body);
    assert_eq!(wire.len(), encode_header(&header).len() + body.len());
    let mut expected = b"20 text/gemini\r\n".to_vec();
    expected.extend_from_slice(&body);
    assert_eq!(wire, expected);
}

#[test]
fn empty_body_sends_header_only() {
    let header = ResponseHeader::new(Status::new(51), "Not found".to_string());
    assert_eq!(encode_response(&header, &[]), b"51 Not found\r\n".to_vec());
}

#[test]
fn relative_reference_parses() {
    assert_eq!(uri_of(b"/foo/bar\r\n"), b"/foo/bar".to_vec());
}

#[test]
fn error_messages_name_the_cause() {
    assert_eq!(RequestError::TooLong.message(), "Request URI too long");
    assert_eq!(RequestError::NotCrlfTerminated.message(), "Request header not terminated with CRLF");
    assert_eq!(RequestError::InvalidUri.message(), "Request URI is invalid");
}

#[test]
fn stream_ending_past_uri_limit_is_too_long() {
    let line = vec![b'a'; REQUEST_URI_MAX_LEN + 1];
    assert_eq!(parse_request(&line).err(), Some(RequestError::TooLong));
    let mut crlf_less = vec![b'a'; REQUEST_URI_MAX_LEN];
    crlf_less.push(b'\r');
    assert_eq!(parse_request(&crlf_less).err(), Some(RequestError::TooLong));
}

#[test]
fn stream_ending_within_uri_limit_is_not_crlf() {
    let line = vec![b'a'; REQUEST_URI_MAX_LEN];
    assert_eq!(parse_request(&line).err(), Some(RequestError::NotCrlfTerminated));
}
