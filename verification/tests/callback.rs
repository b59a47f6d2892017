use better_ch::auth::callback::{is_white_space_char, parse_callback_request};
use better_ch::auth::oauth::Authenticator;
use better_ch::error::{AuthError, Error};

fn fetch_message(r: Result<String, Error>) -> String {
    match r {
        Err(Error::Auth(AuthError::TokenFetch(m))) => m,
        other => panic!("unexpected {:?}", other),
    }
}

#[test]
fn accepts_code_with_expected_state() {
    let r = parse_callback_request("GET /callback?code=abc&state=xyz HTTP/1.1", "xyz");
    assert_eq!(r.unwrap(), "abc");
    let r = parse_callback_request("GET /callback?state=xyz&code=abc HTTP/1.1", "xyz");
    assert_eq!(r.unwrap(), "abc");
}

#[test]
fn refuses_other_state() {
    let r = parse_callback_request("GET /callback?code=abc&state=evil HTTP/1.1", "xyz");
    assert_eq!(fetch_message(r), "OAuth state mismatch: possible CSRF attack");
    let r = parse_callback_request("GET /callback?code=abc HTTP/1.1", "xyz");
    assert_eq!(fetch_message(r), "OAuth state mismatch: possible CSRF attack");
}

#[test]
fn reports_missing_code() {
    let r = parse_callback_request("GET /callback?state=xyz HTTP/1.1", "xyz");
    assert_eq!(fetch_message(r), "No authorization code found in callback");
    let r = parse_callback_request("GET /other?code=abc&state=xyz HTTP/1.1", "xyz");
    assert_eq!(fetch_message(r), "No authorization code found in callback");
    let r = parse_callback_request("GET", "xyz");
    assert_eq!(fetch_message(r), "No authorization code found in callback");
    let r = parse_callback_request("", "xyz");
    assert_eq!(fetch_message(r), "No authorization code found in callback");
}

#[test]
fn decodes_values_and_keeps_the_last_one() {
    let r = parse_callback_request(
        "GET /callback?code=a%2Fb&state=x%20y&code=second HTTP/1.1",
        "x y",
    );
    assert_eq!(r.unwrap(), "second");
    let r = parse_callback_request("GET /callback?code=a%2Fb+c&state=s HTTP/1.1", "s");
    assert_eq!(r.unwrap(), "a/b+c");
    let r = parse_callback_request("GET /callback?code=x=y&flag&state=s HTTP/1.1", "s");
    assert_eq!(r.unwrap(), "x=y");
}

#[test]
fn repeated_prefix_and_extra_spaces() {
    let r = parse_callback_request(
        "  GET\t /callback?/callback?code=c&state=s   HTTP/1.1",
        "s",
    );
    assert_eq!(r.unwrap(), "c");
}

#[test]
fn invalid_utf8_escape_is_reported() {
    let r = parse_callback_request("GET /callback?code=%FF&state=s HTTP/1.1", "s");
    let m = fetch_message(r);
    assert!(m.contains("utf-8"), "{}", m);
}

#[test]
fn white_space_characters() {
    for c in [' ', '\t', '\n', '\r', '\u{0B}', '\u{0C}', '\u{85}', '\u{A0}', '\u{2003}', '\u{3000}'] {
        assert!(is_white_space_char(c));
        assert_eq!(is_white_space_char(c), c.is_whitespace());
    }
    for c in ['a', '/', '\u{200B}', '0'] {
        assert!(!is_white_space_char(c));
        assert_eq!(is_white_space_char(c), c.is_whitespace());
    }
}

#[test]
fn drawn_state_comes_back_through_the_redirect() {
    let auth = Authenticator::new("https://anypoint.mulesoft.com", "cid".to_string(), "secret".to_string())
        .expect("authenticator");
    let (url, _verifier, state) = auth.build_authorization_url();
    assert!(url.contains(&format!("&state={}&", state)));
    assert!(url.contains("response_type=code&"));
    let line = format!("GET /callback?code=xyz&state={} HTTP/1.1", state);
    assert_eq!(parse_callback_request(&line, &state).unwrap(), "xyz");
    let (_, _, other) = auth.build_authorization_url();
    assert_ne!(other, state);
    let line = format!("GET /callback?code=xyz&state={} HTTP/1.1", other);
    assert_eq!(
        fetch_message(parse_callback_request(&line, &state)),
        "OAuth state mismatch: possible CSRF attack"
    );
}
