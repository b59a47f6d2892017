use better_ch::auth::oauth::{
    encode_query, pkce_challenge, token_fetch_failure, token_from_draws, Authenticator, Token, User,
};
use better_ch::error::{AuthError, Error};

fn authenticator() -> Authenticator {
    Authenticator::new("https://anypoint.mulesoft.com", "cid".to_string(), "secret".to_string())
        .expect("authenticator")
}

fn is_token_text(s: &str) -> bool {
    s.chars().count() == 32 && s.chars().all(|c| c.is_ascii_alphanumeric())
}

#[test]
fn new_authenticator_listens_on_default_loopback() {
    let a = authenticator();
    assert_eq!(a.platform_url, "https://anypoint.mulesoft.com");
    assert_eq!(a.client_id, "cid");
    assert_eq!(a.client_secret, "secret");
    assert_eq!(a.redirect_uri, "http://127.0.0.1:8082/callback");
    assert_eq!(a.port, 8082);
}

#[test]
fn port_change_keeps_loopback_redirect_in_sync() {
    let a = authenticator().with_port(9000);
    assert_eq!(a.port, 9000);
    assert_eq!(a.redirect_uri, "http://127.0.0.1:9000/callback");
    let b = authenticator()
        .with_redirect_uri("https://example.com/cb".to_string())
        .with_port(7000);
    assert_eq!(b.port, 7000);
    assert_eq!(b.redirect_uri, "https://example.com/cb");
    let c = authenticator().with_port(0);
    assert_eq!(c.redirect_uri, "http://127.0.0.1:0/callback");
    let d = authenticator().with_port(65535);
    assert_eq!(d.redirect_uri, "http://127.0.0.1:65535/callback");
}

#[test]
fn authorization_url_carries_encoded_parameters() {
    let a = authenticator();
    assert_eq!(
        a.authorization_url("ch", "st"),
        "https://anypoint.mulesoft.com/accounts/api/v2/oauth2/authorize?response_type=code&client_id=cid&redirect_uri=http%3A%2F%2F127.0.0.1%3A8082%2Fcallback&scope=full&state=st&code_challenge=ch&code_challenge_method=S256"
    );
}

#[test]
fn built_authorization_url_uses_fresh_verifier_and_state() {
    let a = authenticator();
    let (url, verifier, state) = a.build_authorization_url();
    assert!(is_token_text(&verifier));
    assert!(is_token_text(&state));
    let challenge = pkce_challenge(&verifier);
    assert_eq!(url, a.authorization_url(&challenge, &state));
    let (url2, verifier2, state2) = a.build_authorization_url();
    assert_ne!(state, state2);
    assert_ne!(verifier, verifier2);
    assert_ne!(url, url2);
}

#[test]
fn pkce_challenge_known_values() {
    assert_eq!(
        pkce_challenge("dBjftJeZ4CVP-mJ92K27uhbUJU1p1r_wW1gFWFOEjXk"),
        "ngF5GsXcbwljx6u133FFr3Xht9xooA_DuaX_3QwODtc"
    );
    assert_eq!(pkce_challenge(""), "47DEQpj8HBSa-_TImW-5JCeuQeRkm5NMpJWZG3hSuFU");
    let (verifier, challenge) = Authenticator::generate_pkce();
    assert!(is_token_text(&verifier));
    assert_eq!(challenge, pkce_challenge(&verifier));
    assert!(is_token_text(&Authenticator::generate_state()));
}

#[test]
fn query_encoding_joins_pairs() {
    let pairs = vec![
        ("a".to_string(), "x y".to_string()),
        ("b".to_string(), "1&2=3".to_string()),
        ("c".to_string(), "é".to_string()),
    ];
    assert_eq!(encode_query(&pairs), "a=x%20y&b=1%262%3D3&c=%C3%A9");
    assert_eq!(encode_query(&Vec::new()), "");
    assert_eq!(
        encode_query(&vec![("k".to_string(), "v-_.~".to_string())]),
        "k=v-_.~"
    );
}

#[test]
fn token_endpoints_and_forms() {
    let a = authenticator();
    assert_eq!(
        a.token_url(),
        "https://anypoint.mulesoft.com/accounts/api/v2/oauth2/token"
    );
    assert_eq!(a.user_url(), "https://anypoint.mulesoft.com/accounts/api/me");
    let form = a.authorization_code_form("the-code", "the-verifier");
    let expected: Vec<(String, String)> = vec![
        ("grant_type", "authorization_code"),
        ("client_id", "cid"),
        ("client_secret", "secret"),
        ("code", "the-code"),
        ("redirect_uri", "http://127.0.0.1:8082/callback"),
        ("code_verifier", "the-verifier"),
    ]
    .into_iter()
    .map(|(k, v)| (k.to_string(), v.to_string()))
    .collect();
    assert_eq!(form, expected);
    let form = a.client_credentials_form();
    assert_eq!(form.len(), 3);
    assert_eq!(form[0], ("grant_type".to_string(), "client_credentials".to_string()));
    let form = a.password_form("me", "pw");
    assert_eq!(form[0], ("grant_type".to_string(), "password".to_string()));
    assert_eq!(form[1], ("username".to_string(), "me".to_string()));
    assert_eq!(form[2], ("password".to_string(), "pw".to_string()));
    assert_eq!(form[4], ("client_secret".to_string(), "secret".to_string()));
}

#[test]
fn failed_token_request_reports_status_and_body() {
    match token_fetch_failure("400 Bad Request", "invalid_grant") {
        Error::Auth(AuthError::TokenFetch(m)) => assert_eq!(m, "400 Bad Request: invalid_grant"),
        other => panic!("unexpected {:?}", other),
    }
}

#[test]
fn token_authorization_and_expiry() {
    let token = Token {
        access_token: "abc".to_string(),
        expires_at: 1_000,
        token_type: "Bearer".to_string(),
    };
    assert_eq!(token.authorization(), "Bearer abc");
    assert!(!token.is_expired_at(999));
    assert!(token.is_expired_at(1_000));
    assert!(token.is_expired_at(5_000));
    assert!(!token.expires_soon_at(500, 499));
    assert!(token.expires_soon_at(500, 500));
    assert!(token.expires_soon_at(1_000, 0));
    assert!(token.expires_soon_at(i64::MAX, i64::MAX));
    assert!(!token.expires_soon_at(i64::MIN, i64::MIN));
}

#[test]
fn tokens_made_with_expiry() {
    let t = Token::new_with_expiry_at("x".to_string(), 1_000_000, 60);
    assert_eq!(t.expires_at, 61_000_000);
    assert_eq!(t.token_type, "Bearer");
    assert!(!t.is_expired_at(60_999_999));
    assert!(t.is_expired_at(61_000_000));
    let fresh = Token::test_token_not_expired().expect("token");
    assert_eq!(fresh.access_token, "test-token");
    assert!(!fresh.is_expired());
    assert!(!fresh.expires_soon(0));
    assert!(fresh.expires_soon(7_200_000_000));
    let old = Token::test_token_expired();
    assert_eq!(old.access_token, "expired");
    assert!(old.is_expired());
    assert!(Token::new_with_expiry("y".to_string(), 9_223_372_036_854_775).is_none());
}

#[test]
fn token_responses() {
    let t = Token::from_response_at("a".to_string(), "Bearer".to_string(), 3600, 0);
    assert_eq!(t.expires_at, 3_600_000_000);
    let wrapped = Token::from_response_at("a".to_string(), "Bearer".to_string(), u64::MAX, 5_000_000);
    assert_eq!(wrapped.expires_at, 4_000_000);
    let now_token = Token::from_response("a".to_string(), "bearer".to_string(), 60).expect("token");
    assert_eq!(now_token.token_type, "bearer");
    assert!(!now_token.is_expired());
    assert!(Token::from_response("a".to_string(), "b".to_string(), u64::MAX / 2).is_none());
}

#[test]
fn user_display_name_is_full_name_or_username() {
    let mut user = User {
        id: "1".to_string(),
        username: "jdoe".to_string(),
        email: "j@example.com".to_string(),
        first_name: Some("Jane".to_string()),
        last_name: Some("Doe".to_string()),
        organization_id: "org".to_string(),
        full_name: Some("Jane Doe".to_string()),
    };
    assert_eq!(user.display_name(), "Jane Doe");
    user.full_name = None;
    assert_eq!(user.display_name(), "jdoe");
    user.first_name = None;
    assert_eq!(user.display_name(), "jdoe");
}

#[test]
fn checked_token_constructors_refuse_only_out_of_range_expiries() {
    let t = Token::new_with_expiry_checked_at("x".to_string(), 1_000_000, 60).expect("token");
    assert_eq!(t.expires_at, 61_000_000);
    assert_eq!(t.token_type, "Bearer");
    assert!(Token::new_with_expiry_checked_at("x".to_string(), 8_210_266_876_799_999_999, 1).is_none());
    assert!(Token::new_with_expiry_checked_at("x".to_string(), 8_210_266_876_799_999_999, 0).is_some());
    let r = Token::from_response_checked_at("a".to_string(), "Bearer".to_string(), 3600, 0).expect("token");
    assert_eq!(r.expires_at, 3_600_000_000);
    assert!(Token::from_response_checked_at("a".to_string(), "b".to_string(), u64::MAX / 2, 0).is_none());
    assert!(Token::from_response_checked_at("a".to_string(), "b".to_string(), 3600, 8_210_266_876_799_999_999).is_none());
    let wrapped = Token::from_response_checked_at("a".to_string(), "b".to_string(), u64::MAX, 5_000_000).expect("token");
    assert_eq!(wrapped.expires_at, 4_000_000);
}

#[test]
fn token_text_follows_the_draws() {
    assert_eq!(token_from_draws(&[0, 25, 26, 51, 52, 61]), "azAZ09");
    assert_eq!(token_from_draws(&[]), "");
}
