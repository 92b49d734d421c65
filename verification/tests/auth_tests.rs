use spotterm::auth::{
    classify_request, decide, denied_error, find_subslice, html_response, parse_callback,
    parse_path, parse_port, percent_decode, preserve_refresh_token, request_line_ready,
    status_response, utf8_bytes, Decision, RequestOutcome,
};

#[test]
fn preserve_refresh_token_keeps_previous_when_response_omits_it() {
    let merged = preserve_refresh_token(None, Some("old-refresh".into()));
    assert_eq!(merged.as_deref(), Some("old-refresh"));
}

#[test]
fn preserve_refresh_token_prefers_rotated_value() {
    let merged = preserve_refresh_token(Some("rotated-refresh".into()), Some("old-refresh".into()));
    assert_eq!(merged.as_deref(), Some("rotated-refresh"));
}

#[test]
fn parses_port_from_redirect_uri() {
    assert_eq!(parse_port("http://127.0.0.1:8888/callback").unwrap(), 8888);
    assert_eq!(parse_port("http://localhost:9000/cb").unwrap(), 9000);
}

#[test]
fn parse_port_fails_without_port() {
    assert!(parse_port("http://127.0.0.1/callback").is_err());
}

#[test]
fn parse_port_reports_why() {
    assert_eq!(
        parse_port("http://127.0.0.1/callback").err().as_deref(),
        Some("no port specified in redirect_uri: http://127.0.0.1/callback")
    );
    assert_eq!(
        parse_port("http://127.0.0.1:99999/callback").err().as_deref(),
        Some("failed to parse the port number: 99999")
    );
    assert_eq!(parse_port("127.0.0.1:1234").unwrap(), 1234);
}

#[test]
fn parses_path_from_redirect_uri() {
    assert_eq!(parse_path("http://127.0.0.1:8888/callback"), "/callback");
    assert_eq!(parse_path("http://127.0.0.1:8888"), "/");
}

#[test]
fn parse_callback_extracts_fields() {
    let cb = parse_callback("/callback?code=AQD123&state=xyz");
    assert_eq!(cb.code.as_deref(), Some("AQD123"));
    assert_eq!(cb.state.as_deref(), Some("xyz"));
    assert!(cb.error.is_none());
}

#[test]
fn parse_callback_decodes_values_and_later_pairs_win() {
    let cb = parse_callback("/cb?state=a%20b&junk&code=1&code=two+words");
    assert_eq!(cb.state.as_deref(), Some("a b"));
    assert_eq!(cb.code.as_deref(), Some("two words"));
    assert!(parse_callback("/cb").code.is_none());
}

#[test]
fn decide_returns_code_when_state_matches() {
    let cb = parse_callback("/callback?code=AQD123&state=good");
    assert!(matches!(decide(&cb, "good"), Decision::Code(c) if c == "AQD123"));
}

#[test]
fn decide_ignores_state_mismatch() {
    let cb = parse_callback("/callback?code=AQD123&state=bad");
    assert!(matches!(decide(&cb, "good"), Decision::Ignore));
}

#[test]
fn decide_reports_denied_when_state_matches() {
    let cb = parse_callback("/callback?error=access_denied&state=good");
    assert!(matches!(decide(&cb, "good"), Decision::Denied(e) if e == "access_denied"));
}

#[test]
fn decide_ignores_missing_code() {
    let cb = parse_callback("/callback?state=good");
    assert!(matches!(decide(&cb, "good"), Decision::Ignore));
}

#[test]
fn percent_decode_handles_escapes_and_plus() {
    assert_eq!(percent_decode("a%2Fb"), "a/b");
    assert_eq!(percent_decode("hello+world"), "hello world");
    assert_eq!(percent_decode("plain"), "plain");
}

#[test]
fn percent_decode_keeps_incomplete_escapes_and_decodes_utf8() {
    assert_eq!(percent_decode("100%"), "100%");
    assert_eq!(percent_decode("%zz"), "%zz");
    assert_eq!(percent_decode("%C3%A9t%C3%A9"), "été");
    assert_eq!(percent_decode("é+"), "é ");
    assert_eq!(percent_decode("%FF"), "\u{FFFD}");
}

#[test]
fn redirect_listener_validates_state_and_ignores_spurious() {
    let spurious = classify_request("GET /callback?code=NOPE&state=bad HTTP/1.1\r\n\r\n", "good", "/callback");
    assert!(matches!(spurious, RequestOutcome::Ignore));
    let real = classify_request("GET /callback?code=REAL123&state=good HTTP/1.1\r\n\r\n", "good", "/callback");
    assert!(matches!(real, RequestOutcome::Code(c) if c == "REAL123"));
    assert!(matches!(classify_request("GET /favicon.ico HTTP/1.1\r\n", "good", "/callback"), RequestOutcome::NotFound));
    assert!(matches!(classify_request("", "good", "/callback"), RequestOutcome::BadRequest));
    assert!(matches!(classify_request("GET\r\n", "good", "/callback"), RequestOutcome::BadRequest));
    let denied = classify_request("GET /callback?error=access_denied&state=good HTTP/1.1", "good", "/callback");
    assert!(matches!(denied, RequestOutcome::Denied(e) if e == "access_denied"));
    assert_eq!(denied_error("access_denied"), "Spotify returned an authorization error: access_denied");
}

#[test]
fn responses_are_well_formed() {
    assert_eq!(status_response(404, "Not Found"), "HTTP/1.1 404 Not Found\r\nContent-Length: 0\r\nConnection: close\r\n\r\n");
    let body = "<!doctype html><meta charset=utf-8><h2>done</h2>";
    assert_eq!(
        html_response("done"),
        format!("HTTP/1.1 200 OK\r\nContent-Type: text/html; charset=utf-8\r\nContent-Length: {}\r\nConnection: close\r\n\r\n{}", body.len(), body)
    );
}

#[test]
fn request_line_arrives_with_a_line_break_or_at_the_limit() {
    assert!(!request_line_ready(b"GET /callback"));
    assert!(request_line_ready(b"GET / HTTP/1.1\r\nHost"));
    assert!(request_line_ready(&vec![b'a'; 8192]));
    assert_eq!(find_subslice(b"ab\r\ncd", b"\r\n"), Some(2));
    assert_eq!(find_subslice(b"ab", b"abc"), None);
}

#[test]
fn utf8_bytes_match_the_standard_encoding() {
    for s in ["a", "é", "あ", "🎵", "mixed é あ 🎵"] {
        assert_eq!(utf8_bytes(s), s.as_bytes().to_vec());
    }
}
