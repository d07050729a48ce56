use http_parser::DataCallbacks;
use http_parser::Event;
use http_parser::HttpParser;
use http_parser::NotifyCallbacks;
use http_parser::ParseError;

fn register_all(p: &mut HttpParser) {
    p.on(NotifyCallbacks::OnMessageBegin, true);
    p.on(NotifyCallbacks::OnHeadersComplete, true);
    p.on(NotifyCallbacks::OnMessageComplete, true);
    p.on_data(DataCallbacks::OnUrl, true);
    p.on_data(DataCallbacks::OnStatus, true);
    p.on_data(DataCallbacks::OnHeaderField, true);
    p.on_data(DataCallbacks::OnHeaderValue, true);
    p.on_data(DataCallbacks::OnBody, true);
}

fn request_parser() -> HttpParser {
    let mut p = HttpParser::new(true);
    register_all(&mut p);
    p
}

fn response_parser() -> HttpParser {
    let mut p = HttpParser::new(false);
    register_all(&mut p);
    p
}

#[test]
fn simple_request() {
    let mut p = request_parser();
    assert!(p.process(b"GET / HTTP/1.1\r\n\r\n", false).is_ok());
    assert_eq!(
        p.events().as_slice(),
        &[
            Event::MessageBegin,
            Event::Url(b"/".to_vec()),
            Event::HeadersComplete,
            Event::MessageComplete,
        ]
    );
}

#[test]
fn request_target_forms() {
    let mut p = request_parser();
    assert!(p.process(b"GET http://u@h.example:80/p/q?x=1#f HTTP/1.0\r\n\r\n", false).is_ok());
    assert_eq!(p.events()[1], Event::Url(b"http://u@h.example:80/p/q?x=1#f".to_vec()));
}

#[test]
fn content_length_exact_body() {
    let mut p = request_parser();
    assert!(p.process(b"PUT /x HTTP/1.1\r\nContent-Length: 5\r\n\r\nhello", false).is_ok());
    assert_eq!(
        p.events().as_slice(),
        &[
            Event::MessageBegin,
            Event::Url(b"/x".to_vec()),
            Event::HeaderField(b"Content-Length".to_vec()),
            Event::HeaderValue(b"5".to_vec()),
            Event::HeadersComplete,
            Event::Body(b"hello".to_vec()),
            Event::MessageComplete,
        ]
    );
}

#[test]
fn content_length_truncated_is_premature_eof() {
    let mut p = request_parser();
    assert!(p.process(b"PUT /x HTTP/1.1\r\nContent-Length: 5\r\n\r\nhell", false).is_ok());
    let r = p.process(b"", true);
    assert_eq!(r, Err(ParseError::PrematureEof));
}

#[test]
fn status_code_too_short_is_error() {
    let mut p = response_parser();
    let r = p.process(b"HTTP/1.1 20 OK\r\n", false);
    assert_eq!(r, Err(ParseError::SyntaxError));
}

#[test]
fn status_code_too_long_is_error() {
    let mut p = response_parser();
    let r = p.process(b"HTTP/1.1 2000 OK\r\n", false);
    assert_eq!(r, Err(ParseError::SyntaxError));
}

#[test]
fn status_reason_is_surfaced() {
    let mut p = response_parser();
    assert!(p.process(b"HTTP/1.1 404 Not Found\r\n\r\n", false).is_ok());
    assert_eq!(p.events()[1], Event::Status(b"Not Found".to_vec()));
}

#[test]
fn folded_header_value_is_one_entry() {
    let mut p = request_parser();
    assert!(p.process(b"GET / HTTP/1.1\r\nX-Foo: bar\r\n baz\r\n\r\n", false).is_ok());
    assert_eq!(
        p.events().as_slice(),
        &[
            Event::MessageBegin,
            Event::Url(b"/".to_vec()),
            Event::HeaderField(b"X-Foo".to_vec()),
            Event::HeaderValue(b"bar baz".to_vec()),
            Event::HeadersComplete,
            Event::MessageComplete,
        ]
    );
}

#[test]
fn chunked_round_trip() {
    let mut p = request_parser();
    let msg = b"POST /u HTTP/1.1\r\nTransfer-Encoding: chunked\r\n\r\n3\r\nfoo\r\n0\r\n\r\n";
    assert!(p.process(msg, false).is_ok());
    assert_eq!(
        p.events().as_slice(),
        &[
            Event::MessageBegin,
            Event::Url(b"/u".to_vec()),
            Event::HeaderField(b"Transfer-Encoding".to_vec()),
            Event::HeaderValue(b"chunked".to_vec()),
            Event::HeadersComplete,
            Event::Body(b"foo".to_vec()),
            Event::MessageComplete,
        ]
    );
}

#[test]
fn chunked_zero_length_body() {
    let mut p = request_parser();
    let msg = b"POST /u HTTP/1.1\r\nTransfer-Encoding: chunked\r\n\r\n0\r\n\r\n";
    assert!(p.process(msg, false).is_ok());
    let evs = p.events();
    assert!(evs.iter().all(|e| !matches!(e, Event::Body(_))));
    assert_eq!(evs.last(), Some(&Event::MessageComplete));
}

#[test]
fn chunked_hex_size_and_extension() {
    let mut p = request_parser();
    let msg = b"POST /u HTTP/1.1\r\nTransfer-Encoding: chunked\r\n\r\na;name=x\r\n0123456789\r\n0\r\n\r\n";
    assert!(p.process(msg, false).is_ok());
    assert!(p.events().contains(&Event::Body(b"0123456789".to_vec())));
}

#[test]
fn chunked_trailer_headers() {
    let mut p = request_parser();
    let msg = b"POST /u HTTP/1.1\r\nTransfer-Encoding: chunked\r\n\r\n3\r\nfoo\r\n0\r\nX-T: v\r\n\r\n";
    assert!(p.process(msg, false).is_ok());
    let evs = p.events();
    let n = evs.len();
    assert_eq!(evs[n - 3], Event::HeaderField(b"X-T".to_vec()));
    assert_eq!(evs[n - 2], Event::HeaderValue(b"v".to_vec()));
    assert_eq!(evs[n - 1], Event::MessageComplete);
}

#[test]
fn chunked_truncated_is_premature_eof() {
    let mut p = request_parser();
    assert!(p.process(b"POST /u HTTP/1.1\r\nTransfer-Encoding: chunked\r\n\r\n3\r\nfo", false).is_ok());
    assert_eq!(p.process(b"", true), Err(ParseError::PrematureEof));
}

#[test]
fn transfer_encoding_token_list_and_case() {
    let mut p = request_parser();
    let msg = b"POST /u HTTP/1.1\r\ntransfer-encoding: gzip, CHUNKED\r\n\r\n1\r\nz\r\n0\r\n\r\n";
    assert!(p.process(msg, false).is_ok());
    assert!(p.events().contains(&Event::Body(b"z".to_vec())));
}

#[test]
fn transfer_encoding_other_coding_is_not_chunked() {
    let mut p = response_parser();
    assert!(p.process(b"HTTP/1.1 200 OK\r\nTransfer-Encoding: gzip\r\n\r\nzz", false).is_ok());
    // without a recognised framing header a response body runs to the close
    assert!(p.process(b"", true).is_ok());
    assert!(p.events().contains(&Event::Body(b"zz".to_vec())));
}

#[test]
fn method_terminated_by_control_byte_is_error() {
    let mut p = request_parser();
    let r = p.process(b"GET\x01/ HTTP/1.1\r\n", false);
    assert_eq!(r, Err(ParseError::SyntaxError));
    assert_eq!(p.events().as_slice(), &[Event::MessageBegin]);
}

#[test]
fn rejecting_callback_aborts_with_callback_error() {
    let mut p = HttpParser::new(true);
    register_all(&mut p);
    p.on_data(DataCallbacks::OnHeaderValue, false);
    let r = p.process(b"GET / HTTP/1.1\r\nHost: x\r\n\r\n", false);
    assert_eq!(r, Err(ParseError::CallbackError));
    assert_eq!(
        p.events().as_slice(),
        &[
            Event::MessageBegin,
            Event::Url(b"/".to_vec()),
            Event::HeaderField(b"Host".to_vec()),
        ]
    );
}

#[test]
fn errors_are_reported_again() {
    let mut p = response_parser();
    assert_eq!(p.process(b"XXX", false), Err(ParseError::SyntaxError));
    let before = p.events().len();
    assert_eq!(p.process(b"HTTP/1.1 200 OK\r\n", false), Err(ParseError::SyntaxError));
    assert_eq!(p.events().len(), before);
}

#[test]
fn split_at_every_boundary_gives_same_events() {
    let msg: &[u8] = b"HTTP/1.1 200 OK\r\nContent-Length: 3\r\n\r\nabc";
    let mut whole = response_parser();
    assert!(whole.process(msg, false).is_ok());
    for i in 0..=msg.len() {
        let mut p = response_parser();
        assert!(p.process(&msg[..i], false).is_ok());
        assert!(p.process(&msg[i..], false).is_ok());
        assert_eq!(p.events(), whole.events(), "split at {}", i);
    }
    let mut bytewise = response_parser();
    for b in msg.iter() {
        assert!(bytewise.process(std::slice::from_ref(b), false).is_ok());
    }
    assert_eq!(bytewise.events(), whole.events());
}

#[test]
fn read_until_close_body() {
    let mut p = response_parser();
    assert!(p.process(b"HTTP/1.0 200 OK\r\n\r\nab", false).is_ok());
    assert!(p.process(b"cde", false).is_ok());
    assert!(p.process(b"", true).is_ok());
    assert_eq!(
        p.events().as_slice(),
        &[
            Event::MessageBegin,
            Event::Status(b"OK".to_vec()),
            Event::HeadersComplete,
            Event::Body(b"abcde".to_vec()),
            Event::MessageComplete,
        ]
    );
}

#[test]
fn empty_slice_without_eof_is_a_no_op() {
    let mut p = request_parser();
    assert!(p.process(b"", false).is_ok());
    assert!(p.process(b"", true).is_ok());
    assert!(p.events().is_empty());
}

#[test]
fn content_length_not_numeric_is_error() {
    let mut p = request_parser();
    let r = p.process(b"PUT / HTTP/1.1\r\nContent-Length: 5x\r\n\r\n", false);
    assert_eq!(r, Err(ParseError::SyntaxError));
}

#[test]
fn conflicting_content_lengths_are_an_error() {
    let mut p = request_parser();
    let r = p.process(b"PUT / HTTP/1.1\r\nContent-Length: 5\r\nContent-Length: 6\r\n\r\n", false);
    assert_eq!(r, Err(ParseError::SyntaxError));
}

#[test]
fn repeated_equal_content_lengths_are_accepted() {
    let mut p = request_parser();
    assert!(p.process(b"PUT / HTTP/1.1\r\nContent-Length: 2\r\nContent-Length: 2\r\n\r\nok", false).is_ok());
    assert!(p.events().contains(&Event::Body(b"ok".to_vec())));
}

#[test]
fn content_length_zero_completes_without_body() {
    let mut p = request_parser();
    assert!(p.process(b"PUT / HTTP/1.1\r\nContent-Length: 0\r\n\r\n", false).is_ok());
    let evs = p.events();
    assert!(evs.iter().all(|e| !matches!(e, Event::Body(_))));
    assert_eq!(evs.last(), Some(&Event::MessageComplete));
}

#[test]
fn bare_lf_line_endings_are_tolerated() {
    let mut p = request_parser();
    assert!(p.process(b"GET / HTTP/1.1\nHost: x\n\n", false).is_ok());
    assert_eq!(
        p.events().as_slice(),
        &[
            Event::MessageBegin,
            Event::Url(b"/".to_vec()),
            Event::HeaderField(b"Host".to_vec()),
            Event::HeaderValue(b"x".to_vec()),
            Event::HeadersComplete,
            Event::MessageComplete,
        ]
    );
}

#[test]
fn unregistered_slots_deliver_nothing() {
    let mut p = HttpParser::new(true);
    assert!(p.process(b"GET / HTTP/1.1\r\n\r\n", false).is_ok());
    assert!(p.events().is_empty());
}

#[test]
fn bytes_after_a_complete_message_are_an_error() {
    let mut p = request_parser();
    assert!(p.process(b"GET / HTTP/1.1\r\n\r\n", false).is_ok());
    assert_eq!(p.process(b"G", false), Err(ParseError::SyntaxError));
}

#[test]
fn version_digits_accumulate() {
    let mut p = request_parser();
    assert!(p.process(b"GET / HTTP/10.21\r\n\r\n", false).is_ok());
    assert_eq!(p.events().last(), Some(&Event::MessageComplete));
}

#[test]
fn status_line_without_reason() {
    let mut p = response_parser();
    assert!(p.process(b"HTTP/1.1 204\r\nContent-Length: 0\r\n\r\n", false).is_ok());
    assert_eq!(p.events().last(), Some(&Event::MessageComplete));
    assert!(p.events().iter().all(|e| !matches!(e, Event::Status(_))));
}
