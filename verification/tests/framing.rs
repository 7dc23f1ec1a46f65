use gemini_server::request::fit_buffer;
use gemini_server::request::has_terminator;
use gemini_server::request::parse_request;
use gemini_server::request::strip_terminator;
use gemini_server::request::RequestError;
use gemini_server::request::MAX_REQUEST_LEN;
use gemini_server::request::MAX_URL_LEN;
use gemini_server::request::TERMINATOR_LEN;

fn line_of_length(total: usize) -> Vec<u8> {
    let prefix: &[u8] = b"gemini://example.org/";
    let mut line: Vec<u8> = prefix.to_vec();
    while line.len() + 2 < total {
        line.push(b'a');
    }
    line.extend_from_slice(b"\r\n");
    line
}

#[test]
fn limits_are_those_of_the_protocol() {
    assert_eq!(MAX_URL_LEN, 1024);
    assert_eq!(MAX_REQUEST_LEN, 1026);
    assert_eq!(TERMINATOR_LEN, 2);
    assert_eq!(MAX_REQUEST_LEN, MAX_URL_LEN + TERMINATOR_LEN);
}

#[test]
fn terminated_url_is_accepted() {
    let request = parse_request(b"gemini://example.org/\r\n").expect("a valid request");
    assert_eq!(request.url(), "gemini://example.org/");
}

#[test]
fn url_with_path_and_query_is_accepted() {
    let request = parse_request(b"gemini://example.org/docs/index.gmi?q=1\r\n").expect("valid");
    assert_eq!(request.url(), "gemini://example.org/docs/index.gmi?q=1");
}

#[test]
fn url_is_normalised_by_the_parser() {
    let request = parse_request(b"HTTP://EXAMPLE.COM\r\n").expect("a valid request");
    assert_eq!(request.url(), "http://example.com/");
}

#[test]
fn invalid_utf8_is_replaced_before_parsing() {
    let request = parse_request(b"gemini://example.org/\xff\r\n").expect("a valid request");
    assert_eq!(request.url(), "gemini://example.org/%EF%BF%BD");
}

#[test]
fn empty_input_is_too_short() {
    assert!(matches!(parse_request(b""), Err(RequestError::RequestTooShort)));
}

#[test]
fn single_byte_is_too_short() {
    assert!(matches!(parse_request(b"\n"), Err(RequestError::RequestTooShort)));
    assert!(matches!(parse_request(b"g"), Err(RequestError::RequestTooShort)));
}

#[test]
fn missing_terminator_is_malformed_and_keeps_the_bytes() {
    match parse_request(b"gemini://example.org/") {
        Err(RequestError::MalformedRequest(raw)) => {
            assert_eq!(raw, b"gemini://example.org/".to_vec());
        }
        other => panic!("expected a malformed request, got {:?}", other),
    }
}

#[test]
fn line_feed_alone_is_malformed() {
    match parse_request(b"gemini://example.org/\n") {
        Err(RequestError::MalformedRequest(raw)) => {
            assert_eq!(raw, b"gemini://example.org/\n".to_vec());
        }
        other => panic!("expected a malformed request, got {:?}", other),
    }
}

#[test]
fn reversed_terminator_is_malformed() {
    assert!(matches!(
        parse_request(b"gemini://example.org/\n\r"),
        Err(RequestError::MalformedRequest(_))
    ));
}

#[test]
fn terminator_in_the_middle_is_malformed() {
    assert!(matches!(
        parse_request(b"gemini://example.org/\r\nmore"),
        Err(RequestError::MalformedRequest(_))
    ));
}

#[test]
fn terminator_alone_is_no_url() {
    assert!(matches!(parse_request(b"\r\n"), Err(RequestError::InvalidUrl)));
}

#[test]
fn relative_reference_is_no_url() {
    assert!(matches!(parse_request(b"not a url\r\n"), Err(RequestError::InvalidUrl)));
    assert!(matches!(parse_request(b"/only/a/path\r\n"), Err(RequestError::InvalidUrl)));
}

#[test]
fn line_of_maximum_length_is_accepted() {
    let line = line_of_length(1026);
    assert_eq!(line.len(), 1026);
    let request = parse_request(&line).expect("a request of the maximum length");
    assert_eq!(request.url().len(), 1024);
    assert_eq!(request.url().as_bytes(), &line[..1024]);
}

#[test]
fn line_one_byte_below_the_maximum_is_accepted() {
    let line = line_of_length(1025);
    let request = parse_request(&line).expect("a request below the maximum length");
    assert_eq!(request.url().len(), 1023);
}

#[test]
fn line_one_byte_over_the_maximum_is_cut_and_malformed() {
    let line = line_of_length(1027);
    assert_eq!(line.len(), 1027);
    match parse_request(&line) {
        Err(RequestError::MalformedRequest(raw)) => {
            assert_eq!(raw.len(), 1026);
            assert_eq!(raw, line[..1026].to_vec());
        }
        other => panic!("expected a malformed request, got {:?}", other),
    }
}

#[test]
fn bytes_beyond_the_buffer_are_ignored() {
    let mut data = line_of_length(1026);
    data.extend_from_slice(b"trailing bytes that no read would pick up");
    let request = parse_request(&data).expect("the first 1026 bytes are a request");
    assert_eq!(request.url().len(), 1024);
}

#[test]
fn fit_buffer_keeps_short_input_and_cuts_long_input() {
    let short: Vec<u8> = vec![7u8; 10];
    assert_eq!(fit_buffer(&short), &short[..]);
    let exact: Vec<u8> = vec![7u8; 1026];
    assert_eq!(fit_buffer(&exact).len(), 1026);
    let long: Vec<u8> = (0..2000).map(|i: u32| (i % 251) as u8).collect();
    assert_eq!(fit_buffer(&long), &long[..1026]);
}

#[test]
fn has_terminator_looks_at_the_last_two_bytes() {
    assert!(has_terminator(b"\r\n"));
    assert!(has_terminator(b"abc\r\n"));
    assert!(!has_terminator(b""));
    assert!(!has_terminator(b"\n"));
    assert!(!has_terminator(b"abc\r"));
    assert!(!has_terminator(b"abc\n"));
    assert!(!has_terminator(b"\r\nabc"));
}

#[test]
fn strip_terminator_returns_what_precedes_it() {
    assert_eq!(strip_terminator(b"abc\r\n").expect("terminated"), b"abc");
    assert_eq!(strip_terminator(b"\r\n").expect("terminated"), b"");
    assert!(matches!(strip_terminator(b"a"), Err(RequestError::RequestTooShort)));
    assert!(matches!(strip_terminator(b"abc"), Err(RequestError::MalformedRequest(_))));
}
