//! OAuth2 authentication for Anypoint Platform: the authorization code flow
//! with PKCE for SSO login, and the access tokens it yields.
use vstd::prelude::*;
use vstd::utf8::encode_utf8;

use base64::Engine;
use rand::Rng;
use sha2::Digest;

use crate::error::{AuthError, Error};
use crate::text::{chars_of, decimal, decimal_string, has_prefix, prefixed, starts_with, string_of};

verus! {

broadcast use vstd::string::group_string_axioms;

// ---------------------------------------------------------------------------
// Results of outside functions
// ---------------------------------------------------------------------------

/// The SHA-256 digest of `data` (`sha2::Sha256::digest`).
pub uninterp spec fn sha256_digest(data: Seq<u8>) -> Seq<u8>;

/// The URL-safe base64 alphabet (`base64::alphabet::URL_SAFE`).
pub open spec fn base64_url_alphabet() -> Seq<char> {
    "ABCDEFGHIJKLMNOPQRSTUVWXYZabcdefghijklmnopqrstuvwxyz0123456789-_"@
}

/// The character of the 6-bit value `v` in the URL-safe alphabet.
pub open spec fn sextet(v: int) -> char {
    base64_url_alphabet()[v]
}

/// The URL-safe base64 text of `data`, without padding: each group of three
/// bytes gives four characters, a last group of two bytes three, and a last
/// single byte two.
pub open spec fn base64_url_unpadded(data: Seq<u8>) -> Seq<char>
    decreases data.len(),
{
    let b0 = data[0] as int;
    let b1 = data[1] as int;
    let b2 = data[2] as int;
    if data.len() == 0 {
        Seq::empty()
    } else if data.len() == 1 {
        seq![sextet(b0 / 4), sextet((b0 % 4) * 16)]
    } else if data.len() == 2 {
        seq![sextet(b0 / 4), sextet((b0 % 4) * 16 + b1 / 16), sextet((b1 % 16) * 4)]
    } else {
        seq![
            sextet(b0 / 4),
            sextet((b0 % 4) * 16 + b1 / 16),
            sextet((b1 % 16) * 4 + b2 / 64),
            sextet(b2 % 64),
        ] + base64_url_unpadded(data.skip(3))
    }
}

/// The characters that `urlencoding::encode` leaves as they are.
pub open spec fn is_unreserved(c: char) -> bool {
    ||| 'a' <= c <= 'z'
    ||| 'A' <= c <= 'Z'
    ||| '0' <= c <= '9'
    ||| c == '-'
    ||| c == '_'
    ||| c == '.'
    ||| c == '~'
}

/// Whether `urlencoding` leaves the byte `b` as it is: an ASCII letter or
/// digit, `-`, `.`, `_` or `~`.
pub open spec fn is_unreserved_byte(b: u8) -> bool {
    ||| 0x30 <= b <= 0x39
    ||| 0x41 <= b <= 0x5A
    ||| 0x61 <= b <= 0x7A
    ||| b == 0x2D
    ||| b == 0x2E
    ||| b == 0x5F
    ||| b == 0x7E
}

/// The upper-case hexadecimal digit of `d` (below 16).
pub open spec fn hex_digit(d: int) -> char {
    if d < 10 {
        (0x30 + d) as char
    } else {
        (0x41 + d - 10) as char
    }
}

/// Percent-encoding of bytes: an unreserved byte stands for itself, any other
/// becomes `%` and its two upper-case hexadecimal digits.
pub open spec fn percent_encoded(bytes: Seq<u8>) -> Seq<char>
    decreases bytes.len(),
{
    if bytes.len() == 0 {
        Seq::empty()
    } else {
        let b = bytes[0];
        (if is_unreserved_byte(b) {
            seq![b as char]
        } else {
            seq!['%', hex_digit(b as int / 16), hex_digit(b as int % 16)]
        }) + percent_encoded(bytes.drop_first())
    }
}

/// Percent-encoding of the UTF-8 bytes of `s`.
pub open spec fn url_encoded(s: Seq<char>) -> Seq<char> {
    percent_encoded(encode_utf8(s))
}

/// `urlencoding::encode`: percent-encodes every byte of the UTF-8 text except
/// ASCII alphanumerics and `-`, `_`, `.`, `~`, with upper-case hexadecimal
/// digits (`encode_into` and `to_hex_digit` in its source). Claimed: the
/// result is `url_encoded(s)`.
#[verifier::external_body]
fn url_encode(s: &str) -> (encoded: String)
    ensures
        encoded@ == url_encoded(s@),
{
    urlencoding::encode(s).into_owned()
}

/// `sha2::Sha256::digest`. Claimed: the result is `sha256_digest(data)`, 32 bytes long.
#[verifier::external_body]
fn sha256(data: &[u8]) -> (digest: Vec<u8>)
    ensures
        digest@ == sha256_digest(data@),
        digest@.len() == 32,
{
    sha2::Sha256::digest(data).to_vec()
}

/// `base64::engine::general_purpose::URL_SAFE_NO_PAD.encode`. Claimed: the
/// result is `base64_url_unpadded(data)`. The encoder panics when the encoded
/// length overflows `usize`; the bound on the input leaves that out.
#[verifier::external_body]
fn base64_url(data: &[u8]) -> (text: String)
    requires
        data@.len() <= usize::MAX / 4,
    ensures
        text@ == base64_url_unpadded(data@),
{
    base64::engine::general_purpose::URL_SAFE_NO_PAD.encode(data)
}

/// `rand::Rng::gen_range(0..n)` on the thread-local generator: a random index
/// below `n` (the call panics on an empty range, which the bound leaves out).
#[verifier::external_body]
fn random_below(n: usize) -> (i: usize)
    requires
        n > 0,
    ensures
        i < n,
{
    rand::thread_rng().gen_range(0..n)
}

/// The latest instant a `chrono::DateTime<Utc>` can hold, in microseconds
/// since the Unix epoch (the end of year 262142).
pub open spec fn latest_instant() -> int {
    8_210_266_876_799_999_999
}

/// The earliest instant a `chrono::DateTime<Utc>` can hold, in microseconds
/// since the Unix epoch (the start of year -262143).
pub open spec fn earliest_instant() -> int {
    -8_334_601_315_200_000_000
}

/// `chrono::Utc::now().timestamp_micros()`: the current time in microseconds
/// since the Unix epoch. Claimed: it is not before the epoch (`Utc::now`
/// panics on a clock set before it) and not after the latest instant a
/// `DateTime<Utc>` holds. Which instant it is depends on the clock.
#[verifier::external_body]
pub(crate) fn now_micros() -> (now: i64)
    ensures
        0 <= now <= latest_instant(),
{
    chrono::Utc::now().timestamp_micros()
}

// ---------------------------------------------------------------------------
// Query strings
// ---------------------------------------------------------------------------

/// The texts of a list of key/value pairs.
pub open spec fn pairs_view(pairs: Seq<(String, String)>) -> Seq<(Seq<char>, Seq<char>)> {
    pairs.map_values(|p: (String, String)| (p.0@, p.1@))
}

/// Whether every character of `s` is one that percent-encoding leaves alone.
pub open spec fn all_unreserved(s: Seq<char>) -> bool {
    forall|i: int| 0 <= i < s.len() ==> is_unreserved(#[trigger] s[i])
}

/// A text made only of unreserved characters percent-encodes to itself.
pub proof fn lemma_unreserved_text_encodes_to_itself(s: Seq<char>)
    requires
        all_unreserved(s),
    ensures
        url_encoded(s) == s,
{
    assert(vstd::utf8::is_ascii_chars(s));
    vstd::utf8::is_ascii_chars_encode_utf8(s);
    lemma_unreserved_bytes_encode_to_themselves(encode_utf8(s), s);
}

proof fn lemma_unreserved_bytes_encode_to_themselves(bytes: Seq<u8>, s: Seq<char>)
    requires
        bytes.len() == s.len(),
        all_unreserved(s),
        forall|i: int| 0 <= i < s.len() ==> s[i] as u8 == #[trigger] bytes[i],
    ensures
        percent_encoded(bytes) == s,
    decreases bytes.len(),
{
    if bytes.len() > 0 {
        let c = s[0];
        assert(is_unreserved(c));
        assert(bytes[0] == c as u8);
        assert(is_unreserved_byte(bytes[0]));
        assert(bytes[0] as char == c);
        lemma_unreserved_bytes_encode_to_themselves(bytes.drop_first(), s.drop_first());
        assert(s =~= seq![c] + s.drop_first());
    } else {
        assert(s =~= Seq::<char>::empty());
    }
}

/// `key=value` with the value percent-encoded.
pub open spec fn query_param(pair: (Seq<char>, Seq<char>)) -> Seq<char> {
    pair.0 + "="@ + url_encoded(pair.1)
}

/// The pairs as `key=value` joined by `&`, each value percent-encoded.
pub open spec fn query_text(pairs: Seq<(Seq<char>, Seq<char>)>) -> Seq<char>
    decreases pairs.len(),
{
    if pairs.len() == 0 {
        Seq::empty()
    } else if pairs.len() == 1 {
        query_param(pairs[0])
    } else {
        query_text(pairs.drop_last()) + "&"@ + query_param(pairs.last())
    }
}

/// Joins `key=value` pairs with `&`, percent-encoding each value.
pub fn encode_query(pairs: &Vec<(String, String)>) -> (q: String)
    ensures
        q@ == query_text(pairs_view(pairs@)),
{
    let mut q = String::new();
    let ghost all = pairs_view(pairs@);
    for i in 0..pairs.len()
        invariant
            all == pairs_view(pairs@),
            q@ == query_text(all.take(i as int)),
    {
        let encoded = url_encode(pairs[i].1.as_str());
        if i > 0 {
            q.append("&");
        }
        q.append(pairs[i].0.as_str());
        q.append("=");
        q.append(encoded.as_str());
        proof {
            let t = all.take(i + 1);
            assert(t.drop_last() =~= all.take(i as int));
            assert(t.last() == (pairs@[i as int].0@, pairs@[i as int].1@));
            if i == 0 {
                assert(all.take(0) =~= Seq::<(Seq<char>, Seq<char>)>::empty());
            }
        }
        assert(q@ =~= query_text(all.take(i + 1)));
    }
    assert(all.take(pairs@.len() as int) =~= all);
    q
}

fn pair(key: &str, value: &str) -> (p: (String, String))
    ensures
        p.0@ == key@,
        p.1@ == value@,
{
    (String::from_str(key), String::from_str(value))
}

// ---------------------------------------------------------------------------
// Random values and PKCE
// ---------------------------------------------------------------------------

/// The characters of PKCE verifiers and CSRF states.
pub open spec fn token_alphabet() -> Seq<char> {
    "abcdefghijklmnopqrstuvwxyzABCDEFGHIJKLMNOPQRSTUVWXYZ0123456789"@
}

/// A random text of 32 characters from the alphabet.
pub open spec fn is_random_token(s: Seq<char>) -> bool {
    &&& s.len() == 32
    &&& forall|i: int| 0 <= i < s.len() ==> token_alphabet().contains(#[trigger] s[i])
}

/// The PKCE code challenge of a verifier: BASE64URL(SHA256(verifier)), per RFC 7636.
pub open spec fn pkce_challenge_of(verifier: Seq<char>) -> Seq<char> {
    base64_url_unpadded(sha256_digest(encode_utf8(verifier)))
}

/// Every character of the token alphabet is an ASCII letter or digit, so a
/// random token needs no percent-encoding and holds no escape, separator or
/// white space.
pub proof fn lemma_random_token_is_plain(s: Seq<char>)
    requires
        is_random_token(s),
    ensures
        all_unreserved(s),
        forall|i: int|
            0 <= i < s.len() ==> ('a' <= #[trigger] s[i] <= 'z' || 'A' <= s[i] <= 'Z' || '0'
                <= s[i] <= '9'),
{
    reveal_strlit("abcdefghijklmnopqrstuvwxyzABCDEFGHIJKLMNOPQRSTUVWXYZ0123456789");
    assert forall|i: int| 0 <= i < s.len() implies ('a' <= #[trigger] s[i] <= 'z' || 'A' <= s[i]
        <= 'Z' || '0' <= s[i] <= '9') by {
        assert(token_alphabet().contains(s[i]));
    }
}

/// Every character of URL-safe base64 text is unreserved, so a PKCE challenge
/// stands in the authorization URL's query as it is.
pub proof fn lemma_challenge_needs_no_encoding(verifier: Seq<char>)
    ensures
        all_unreserved(pkce_challenge_of(verifier)),
        query_param(("code_challenge"@, pkce_challenge_of(verifier))) == "code_challenge"@ + "="@
            + pkce_challenge_of(verifier),
{
    lemma_base64_text_is_unreserved(sha256_digest(encode_utf8(verifier)));
    lemma_unreserved_text_encodes_to_itself(pkce_challenge_of(verifier));
}

proof fn lemma_sextets_are_unreserved()
    ensures
        forall|v: int| 0 <= v < 64 ==> is_unreserved(#[trigger] sextet(v)),
{
    reveal_strlit("ABCDEFGHIJKLMNOPQRSTUVWXYZabcdefghijklmnopqrstuvwxyz0123456789-_");
}

proof fn lemma_base64_text_is_unreserved(data: Seq<u8>)
    ensures
        all_unreserved(base64_url_unpadded(data)),
    decreases data.len(),
{
    lemma_sextets_are_unreserved();
    if data.len() >= 3 {
        lemma_base64_text_is_unreserved(data.skip(3));
    }
    let b0 = data[0] as int;
    let b1 = data[1] as int;
    let b2 = data[2] as int;
    assert(0 <= b0 / 4 < 64 && 0 <= (b0 % 4) * 16 + b1 / 16 < 64) by {
        assert(0 <= b0 < 256 && 0 <= b1 < 256);
    }
    assert(0 <= (b1 % 16) * 4 + b2 / 64 < 64 && 0 <= b2 % 64 < 64) by {
        assert(0 <= b1 < 256 && 0 <= b2 < 256);
    }
    assert(0 <= (b0 % 4) * 16 < 64 && 0 <= (b1 % 16) * 4 < 64);
}

/// The text whose characters are the alphabet's characters at the positions
/// `draws`, in order.
pub fn token_from_draws(draws: &[usize]) -> (s: String)
    requires
        forall|i: int| 0 <= i < draws@.len() ==> #[trigger] draws@[i] < token_alphabet().len(),
    ensures
        s@.len() == draws@.len(),
        forall|i: int| 0 <= i < draws@.len() ==> #[trigger] s@[i] == token_alphabet()[draws@[i] as int],
{
    let alphabet = chars_of("abcdefghijklmnopqrstuvwxyzABCDEFGHIJKLMNOPQRSTUVWXYZ0123456789");
    proof {
        reveal_strlit("abcdefghijklmnopqrstuvwxyzABCDEFGHIJKLMNOPQRSTUVWXYZ0123456789");
    }
    let mut out: Vec<char> = Vec::new();
    for i in 0..draws.len()
        invariant
            alphabet@ == token_alphabet(),
            forall|j: int| 0 <= j < draws@.len() ==> #[trigger] draws@[j] < token_alphabet().len(),
            out@.len() == i,
            forall|j: int| 0 <= j < i ==> #[trigger] out@[j] == token_alphabet()[draws@[j] as int],
    {
        out.push(alphabet[draws[i]]);
    }
    string_of(out.as_slice())
}

/// Draws 32 characters from the alphabet at random.
fn random_token() -> (s: String)
    ensures
        is_random_token(s@),
{
    proof {
        reveal_strlit("abcdefghijklmnopqrstuvwxyzABCDEFGHIJKLMNOPQRSTUVWXYZ0123456789");
    }
    let mut draws: Vec<usize> = Vec::new();
    for i in 0..32usize
        invariant
            token_alphabet().len() == 62,
            draws@.len() == i,
            forall|j: int| 0 <= j < i ==> #[trigger] draws@[j] < token_alphabet().len(),
    {
        draws.push(random_below(62));
    }
    let s = token_from_draws(draws.as_slice());
    assert forall|i: int| 0 <= i < s@.len() implies token_alphabet().contains(#[trigger] s@[i]) by {
        assert(s@[i] == token_alphabet()[draws@[i] as int]);
    }
    s
}

/// The PKCE code challenge of `verifier`.
pub fn pkce_challenge(verifier: &str) -> (challenge: String)
    ensures
        challenge@ == pkce_challenge_of(verifier@),
{
    let digest = sha256(verifier.as_bytes());
    base64_url(digest.as_slice())
}

// ---------------------------------------------------------------------------
// Users and tokens
// ---------------------------------------------------------------------------

/// Current user information from Anypoint Platform.
#[derive(Debug, Clone)]
pub struct User {
    /// Unique user ID
    pub id: String,
    /// Anypoint username
    pub username: String,
    /// Email address
    pub email: String,
    /// First name
    pub first_name: Option<String>,
    /// Last name
    pub last_name: Option<String>,
    /// Organization ID
    pub organization_id: String,
    /// Full name (computed)
    pub full_name: Option<String>,
}

impl User {
    /// The name shown for the user: the full name, or else the username.
    pub open spec fn display_name_of(&self) -> Seq<char> {
        match self.full_name {
            Some(n) => n@,
            None => self.username@,
        }
    }

    /// Get display name (full name or username)
    pub fn display_name(&self) -> (name: &str)
        ensures
            name@ == self.display_name_of(),
    {
        match &self.full_name {
            Some(n) => n.as_str(),
            None => self.username.as_str(),
        }
    }
}

/// The largest number of seconds a `chrono::TimeDelta` takes (`i64::MAX / 1000`).
pub open spec fn max_delta_seconds() -> int {
    9_223_372_036_854_775
}

/// The instant `seconds` seconds after `now` (both in microseconds).
pub open spec fn instant_after(now: int, seconds: int) -> int {
    now + seconds * 1_000_000
}

/// Whether an instant lies in the range that a `DateTime<Utc>` holds.
pub open spec fn representable(t: int) -> bool {
    earliest_instant() <= t <= latest_instant()
}

/// `seconds` as a `chrono::TimeDelta` takes it.
pub open spec fn valid_delta(seconds: int) -> bool {
    -max_delta_seconds() <= seconds <= max_delta_seconds()
}

/// The instant `seconds` seconds after `now`.
pub fn add_seconds(now: i64, seconds: i64) -> (t: i64)
    requires
        valid_delta(seconds as int),
        representable(instant_after(now as int, seconds as int)),
    ensures
        t == instant_after(now as int, seconds as int),
{
    let wide: i128 = now as i128 + (seconds as i128) * 1_000_000i128;
    wide as i64
}

/// OAuth2 access token with expiration.
#[derive(Debug, Clone)]
pub struct Token {
    /// The bearer credential.
    pub access_token: String,
    /// When the token expires, in microseconds since the Unix epoch.
    pub expires_at: i64,
    /// The scheme that the `Authorization` header names (e.g. `Bearer`).
    pub token_type: String,
}

impl Token {
    /// Whether the token has expired at the instant `now`.
    pub open spec fn expired_at(&self, now: int) -> bool {
        now >= self.expires_at
    }

    /// Whether the token expires within `window` of the instant `now`.
    pub open spec fn expires_within(&self, now: int, window: int) -> bool {
        now + window >= self.expires_at
    }

    /// The value of the `Authorization` header: the token type, a space, the token.
    pub open spec fn authorization_of(&self) -> Seq<char> {
        self.token_type@ + " "@ + self.access_token@
    }

    /// Whether the token has expired at the instant `now` (microseconds since the epoch).
    pub fn is_expired_at(&self, now: i64) -> (expired: bool)
        ensures
            expired == self.expired_at(now as int),
    {
        now >= self.expires_at
    }

    /// Whether the token has expired now.
    pub fn is_expired(&self) -> (expired: bool)
        ensures
            self.expires_at < 0 ==> expired,
            self.expires_at > latest_instant() ==> !expired,
            exists|now: int| 0 <= now <= latest_instant() && expired == self.expired_at(now),
    {
        let now = now_micros();
        self.is_expired_at(now)
    }

    /// Whether the token expires within `window_micros` of the instant `now`.
    pub fn expires_soon_at(&self, now: i64, window_micros: i64) -> (soon: bool)
        ensures
            soon == self.expires_within(now as int, window_micros as int),
    {
        (now as i128) + (window_micros as i128) >= (self.expires_at as i128)
    }

    /// Whether the token expires within `window_micros` microseconds from now.
    pub fn expires_soon(&self, window_micros: i64) -> (soon: bool)
        ensures
            exists|now: int|
                0 <= now <= latest_instant() && soon == self.expires_within(now, window_micros as int),
    {
        let now = now_micros();
        self.expires_soon_at(now, window_micros)
    }

    /// The value of the `Authorization` header for this token.
    pub fn authorization(&self) -> (header: String)
        ensures
            header@ == self.authorization_of(),
    {
        let mut header = prefixed(self.token_type.as_str(), " ");
        header.append(self.access_token.as_str());
        header
    }

    /// A bearer token that expires `seconds_from_now` seconds after the instant `now`.
    pub fn new_with_expiry_at(access_token: String, now: i64, seconds_from_now: i64) -> (token:
        Token)
        requires
            valid_delta(seconds_from_now as int),
            representable(instant_after(now as int, seconds_from_now as int)),
        ensures
            token.access_token == access_token,
            token.token_type@ == "Bearer"@,
            token.expires_at == instant_after(now as int, seconds_from_now as int),
    {
        Token {
            access_token,
            expires_at: add_seconds(now, seconds_from_now),
            token_type: String::from_str("Bearer"),
        }
    }

    /// A bearer token expiring `seconds_from_now` seconds after the instant
    /// `now`; `None` exactly when that instant lies beyond what a timestamp holds.
    pub fn new_with_expiry_checked_at(access_token: String, now: i64, seconds_from_now: i64) -> (r:
        Option<Token>)
        requires
            valid_delta(seconds_from_now as int),
        ensures
            r is None <==> !representable(instant_after(now as int, seconds_from_now as int)),
            r matches Some(t) ==> t.access_token == access_token && t.token_type@ == "Bearer"@
                && t.expires_at == instant_after(now as int, seconds_from_now as int),
    {
        let wide: i128 = now as i128 + (seconds_from_now as i128) * 1_000_000i128;
        if wide < -8_334_601_315_200_000_000i128 || wide > 8_210_266_876_799_999_999i128 {
            return None;
        }
        Some(Self::new_with_expiry_at(access_token, now, seconds_from_now))
    }

    /// A bearer token expiring `seconds_from_now` seconds from now; `None`
    /// exactly when that instant, for the clock reading taken, lies beyond what
    /// a timestamp holds.
    pub fn new_with_expiry(access_token: String, seconds_from_now: i64) -> (token: Option<Token>)
        requires
            valid_delta(seconds_from_now as int),
        ensures
            exists|now: int|
                {
                    &&& 0 <= now <= latest_instant()
                    &&& (token is None <==> !representable(
                        #[trigger] instant_after(now, seconds_from_now as int),
                    ))
                    &&& (token matches Some(t) ==> t.access_token == access_token
                        && t.token_type@ == "Bearer"@ && t.expires_at == instant_after(
                        now,
                        seconds_from_now as int,
                    ))
                },
            token is None ==> seconds_from_now > 0 || instant_after(0, seconds_from_now as int)
                < earliest_instant(),
    {
        let now = now_micros();
        let r = Self::new_with_expiry_checked_at(access_token, now, seconds_from_now);
        assert(0 <= now <= latest_instant() && (r is None <==> !representable(
            instant_after(now as int, seconds_from_now as int),
        )));
        r
    }

    /// Convenience: a token that expires in one hour. `None` exactly when the
    /// clock reads less than an hour before the latest instant a timestamp holds.
    pub fn test_token_not_expired() -> (token: Option<Token>)
        ensures
            exists|now: int|
                {
                    &&& 0 <= now <= latest_instant()
                    &&& (token is None <==> #[trigger] instant_after(now, 3600) > latest_instant())
                    &&& (token matches Some(t) ==> t.access_token@ == "test-token"@
                        && t.token_type@ == "Bearer"@ && t.expires_at == instant_after(now, 3600)
                        && !t.expired_at(now))
                },
    {
        Self::new_with_expiry(String::from_str("test-token"), 3600)
    }

    /// Convenience: a token that expired one hour ago.
    pub fn test_token_expired() -> (token: Token)
        ensures
            token.access_token@ == "expired"@,
            token.token_type@ == "Bearer"@,
            token.expires_at < 0 || exists|now: int|
                0 <= now <= latest_instant() && token.expires_at == #[trigger] instant_after(now, -3600),
    {
        match Self::new_with_expiry(String::from_str("expired"), -3600) {
            Some(t) => t,
            None => {
                assert(false);
                Token {
                    access_token: String::new(),
                    expires_at: 0,
                    token_type: String::new(),
                }
            },
        }
    }
}


// ---------------------------------------------------------------------------
// Token laws
// ---------------------------------------------------------------------------

/// Once expired, a token stays expired: expiry is monotone in time.
pub proof fn lemma_expiry_is_monotone(token: Token, earlier: int, later: int)
    requires
        earlier <= later,
        token.expired_at(earlier),
    ensures
        token.expired_at(later),
{
}

/// A token "expires soon" with no window exactly when it has expired, and an
/// expired token expires soon for every non-negative window.
pub proof fn lemma_expired_means_expiring_soon(token: Token, now: int, window: int)
    requires
        window >= 0,
    ensures
        token.expires_within(now, 0) == token.expired_at(now),
        token.expired_at(now) ==> token.expires_within(now, window),
{
}

/// A token made to expire `seconds` after `now` has not expired at `now`
/// exactly when `seconds` is positive, and has expired once that time has passed.
pub proof fn lemma_new_token_lifetime(token: Token, now: int, seconds: int)
    requires
        token.expires_at == instant_after(now, seconds),
    ensures
        token.expired_at(now) == (seconds <= 0),
        token.expired_at(instant_after(now, seconds)),
        seconds > 0 ==> !token.expired_at(instant_after(now, seconds) - 1),
{
}

// ---------------------------------------------------------------------------
// The authenticator
// ---------------------------------------------------------------------------

/// The redirect URI on the local loopback callback server for `port`.
pub open spec fn loopback_redirect(port: u16) -> Seq<char> {
    "http://127.0.0.1:"@ + decimal(port as nat) + "/callback"@
}

/// The form parameters of a token request with the authorization code grant.
pub open spec fn authorization_code_form_of(
    client_id: Seq<char>,
    client_secret: Seq<char>,
    code: Seq<char>,
    redirect_uri: Seq<char>,
    code_verifier: Seq<char>,
) -> Seq<(Seq<char>, Seq<char>)> {
    seq![
        ("grant_type"@, "authorization_code"@),
        ("client_id"@, client_id),
        ("client_secret"@, client_secret),
        ("code"@, code),
        ("redirect_uri"@, redirect_uri),
        ("code_verifier"@, code_verifier),
    ]
}

/// OAuth2 authenticator for Anypoint Platform.
pub struct Authenticator {
    /// Base URL of the platform.
    pub platform_url: String,
    /// OAuth2 client ID.
    pub client_id: String,
    /// OAuth2 client secret.
    pub client_secret: String,
    /// Local callback URL for OAuth redirect
    pub redirect_uri: String,
    /// Callback server port
    pub port: u16,
}

impl Authenticator {
    /// The authorization URL that asks the platform for a code, with the PKCE
    /// challenge and the CSRF state.
    pub open spec fn authorization_url_of(
        &self,
        code_challenge: Seq<char>,
        state: Seq<char>,
    ) -> Seq<char> {
        self.platform_url@ + "/accounts/api/v2/oauth2/authorize?"@ + query_text(
            seq![
                ("response_type"@, "code"@),
                ("client_id"@, self.client_id@),
                ("redirect_uri"@, self.redirect_uri@),
                ("scope"@, "full"@),
                ("state"@, state),
                ("code_challenge"@, code_challenge),
                ("code_challenge_method"@, "S256"@),
            ],
        )
    }

    /// A new authenticator, with the default loopback callback on port 8082.
    pub fn new(platform_url: &str, client_id: String, client_secret: String) -> (r: Result<
        Self,
        Error,
    >)
        ensures
            r matches Ok(a) && a.platform_url@ == platform_url@ && a.client_id == client_id
                && a.client_secret == client_secret && a.redirect_uri@ == loopback_redirect(8082)
                && a.port == 8082,
    {
        let redirect_uri = String::from_str("http://127.0.0.1:8082/callback");
        proof {
            reveal_strlit("http://127.0.0.1:8082/callback");
            reveal_strlit("http://127.0.0.1:");
            reveal_strlit("/callback");
            reveal_with_fuel(decimal, 5);
            assert(redirect_uri@ =~= loopback_redirect(8082));
        }
        Ok(Authenticator {
            platform_url: String::from_str(platform_url),
            client_id,
            client_secret,
            redirect_uri,
            port: 8082,
        })
    }

    /// Set custom redirect URI (default: http://127.0.0.1:8082/callback)
    pub fn with_redirect_uri(self, redirect_uri: String) -> (a: Self)
        ensures
            a.redirect_uri == redirect_uri,
            a.platform_url == self.platform_url,
            a.client_id == self.client_id,
            a.client_secret == self.client_secret,
            a.port == self.port,
    {
        Authenticator { redirect_uri, ..self }
    }

    /// Set custom port (default: 8082); a redirect URI on the local loopback
    /// address follows the port.
    pub fn with_port(self, port: u16) -> (a: Self)
        ensures
            a.port == port,
            a.platform_url == self.platform_url,
            a.client_id == self.client_id,
            a.client_secret == self.client_secret,
            has_prefix(self.redirect_uri@, "http://127.0.0.1:"@) ==> a.redirect_uri@
                == loopback_redirect(port),
            !has_prefix(self.redirect_uri@, "http://127.0.0.1:"@) ==> a.redirect_uri
                == self.redirect_uri,
    {
        let loopback = starts_with(self.redirect_uri.as_str(), "http://127.0.0.1:");
        if loopback {
            let digits = decimal_string(port as u64);
            let mut redirect_uri = prefixed("http://127.0.0.1:", digits.as_str());
            redirect_uri.append("/callback");
            Authenticator { redirect_uri, port, ..self }
        } else {
            Authenticator { port, ..self }
        }
    }

    /// Generate PKCE code verifier and challenge
    pub fn generate_pkce() -> (r: (String, String))
        ensures
            is_random_token(r.0@),
            r.1@ == pkce_challenge_of(r.0@),
    {
        let verifier = random_token();
        let challenge = pkce_challenge(verifier.as_str());
        (verifier, challenge)
    }

    /// Generate a random state parameter for CSRF protection
    pub fn generate_state() -> (state: String)
        ensures
            is_random_token(state@),
    {
        random_token()
    }

    /// The authorization URL for the given PKCE challenge and CSRF state.
    pub fn authorization_url(&self, code_challenge: &str, state: &str) -> (url: String)
        ensures
            url@ == self.authorization_url_of(code_challenge@, state@),
    {
        let mut params: Vec<(String, String)> = Vec::new();
        params.push(pair("response_type", "code"));
        params.push(pair("client_id", self.client_id.as_str()));
        params.push(pair("redirect_uri", self.redirect_uri.as_str()));
        params.push(pair("scope", "full"));
        params.push(pair("state", state));
        params.push(pair("code_challenge", code_challenge));
        params.push(pair("code_challenge_method", "S256"));
        assert(pairs_view(params@) =~= seq![
            ("response_type"@, "code"@),
            ("client_id"@, self.client_id@),
            ("redirect_uri"@, self.redirect_uri@),
            ("scope"@, "full"@),
            ("state"@, state@),
            ("code_challenge"@, code_challenge@),
            ("code_challenge_method"@, "S256"@),
        ]);
        let query = encode_query(&params);
        let mut url = prefixed(self.platform_url.as_str(), "/accounts/api/v2/oauth2/authorize?");
        url.append(query.as_str());
        url
    }

    /// Build the authorization URL for SSO login, with a fresh PKCE verifier
    /// and CSRF state: returns the URL, the verifier and the state.
    /// The user opens the URL in a browser to authenticate via their IdP.
    pub fn build_authorization_url(&self) -> (r: (String, String, String))
        ensures
            is_random_token(r.1@),
            is_random_token(r.2@),
            r.0@ == self.authorization_url_of(pkce_challenge_of(r.1@), r.2@),
    {
        let (code_verifier, code_challenge) = Self::generate_pkce();
        let state = Self::generate_state();
        let auth_url = self.authorization_url(code_challenge.as_str(), state.as_str());
        (auth_url, code_verifier, state)
    }

    /// The token endpoint of the platform.
    pub fn token_url(&self) -> (url: String)
        ensures
            url@ == self.platform_url@ + "/accounts/api/v2/oauth2/token"@,
    {
        prefixed(self.platform_url.as_str(), "/accounts/api/v2/oauth2/token")
    }

    /// The endpoint that describes the current user.
    pub fn user_url(&self) -> (url: String)
        ensures
            url@ == self.platform_url@ + "/accounts/api/me"@,
    {
        prefixed(self.platform_url.as_str(), "/accounts/api/me")
    }

    /// The form that exchanges an authorization code for an access token.
    pub fn authorization_code_form(&self, code: &str, code_verifier: &str) -> (form: Vec<
        (String, String),
    >)
        ensures
            pairs_view(form@) == authorization_code_form_of(
                self.client_id@,
                self.client_secret@,
                code@,
                self.redirect_uri@,
                code_verifier@,
            ),
    {
        let mut form: Vec<(String, String)> = Vec::new();
        form.push(pair("grant_type", "authorization_code"));
        form.push(pair("client_id", self.client_id.as_str()));
        form.push(pair("client_secret", self.client_secret.as_str()));
        form.push(pair("code", code));
        form.push(pair("redirect_uri", self.redirect_uri.as_str()));
        form.push(pair("code_verifier", code_verifier));
        assert(pairs_view(form@) =~= authorization_code_form_of(
            self.client_id@,
            self.client_secret@,
            code@,
            self.redirect_uri@,
            code_verifier@,
        ));
        form
    }

    /// The form that exchanges the client credentials for an access token.
    pub fn client_credentials_form(&self) -> (form: Vec<(String, String)>)
        ensures
            pairs_view(form@) == seq![
                ("grant_type"@, "client_credentials"@),
                ("client_id"@, self.client_id@),
                ("client_secret"@, self.client_secret@),
            ],
    {
        let mut form: Vec<(String, String)> = Vec::new();
        form.push(pair("grant_type", "client_credentials"));
        form.push(pair("client_id", self.client_id.as_str()));
        form.push(pair("client_secret", self.client_secret.as_str()));
        assert(pairs_view(form@) =~= seq![
            ("grant_type"@, "client_credentials"@),
            ("client_id"@, self.client_id@),
            ("client_secret"@, self.client_secret@),
        ]);
        form
    }

    /// The form of the resource owner password grant.
    pub fn password_form(&self, username: &str, password: &str) -> (form: Vec<(String, String)>)
        ensures
            pairs_view(form@) == seq![
                ("grant_type"@, "password"@),
                ("username"@, username@),
                ("password"@, password@),
                ("client_id"@, self.client_id@),
                ("client_secret"@, self.client_secret@),
            ],
    {
        let mut form: Vec<(String, String)> = Vec::new();
        form.push(pair("grant_type", "password"));
        form.push(pair("username", username));
        form.push(pair("password", password));
        form.push(pair("client_id", self.client_id.as_str()));
        form.push(pair("client_secret", self.client_secret.as_str()));
        assert(pairs_view(form@) =~= seq![
            ("grant_type"@, "password"@),
            ("username"@, username@),
            ("password"@, password@),
            ("client_id"@, self.client_id@),
            ("client_secret"@, self.client_secret@),
        ]);
        form
    }
}

/// The error for a token or user request that the platform answered with a
/// failure status: the status, a colon, and the body of the answer.
pub fn token_fetch_failure(status: &str, message: &str) -> (e: Error)
    ensures
        e matches Error::Auth(AuthError::TokenFetch(m)) && m@ == status@ + ": "@ + message@,
{
    let mut m = prefixed(status, ": ");
    m.append(message);
    Error::Auth(AuthError::TokenFetch(m))
}

/// `n` as a signed 64-bit integer, wrapping as `as i64` does.
pub open spec fn wrapped_i64(n: u64) -> int {
    if n <= i64::MAX {
        n as int
    } else {
        n - 0x1_0000_0000_0000_0000
    }
}

/// Whether a token response lasting `expires_in` seconds, received at `now`,
/// gives an expiry that a timestamp can hold; beyond that range the time arithmetic
/// has no result.
pub open spec fn expiry_in_range(now: int, expires_in: u64) -> bool {
    &&& valid_delta(wrapped_i64(expires_in))
    &&& representable(instant_after(now, wrapped_i64(expires_in)))
}

impl Token {
    /// The token of a token response received at `now`: it expires
    /// `expires_in` seconds later (the count read as a signed 64-bit number).
    pub fn from_response_at(access_token: String, token_type: String, expires_in: u64, now: i64) -> (token: Token)
        requires
            expiry_in_range(now as int, expires_in),
        ensures
            token.access_token == access_token,
            token.token_type == token_type,
            token.expires_at == instant_after(now as int, wrapped_i64(expires_in)),
    {
        let seconds: i64 = if expires_in <= 9_223_372_036_854_775_807u64 {
            expires_in as i64
        } else {
            -((18_446_744_073_709_551_615u64 - expires_in) as i64) - 1
        };
        Token { access_token, expires_at: add_seconds(now, seconds), token_type }
    }

    /// The token of a token response received at `now`; `None` exactly when
    /// its expiry lies beyond what a timestamp holds.
    pub fn from_response_checked_at(
        access_token: String,
        token_type: String,
        expires_in: u64,
        now: i64,
    ) -> (r: Option<Token>)
        ensures
            r is None <==> !expiry_in_range(now as int, expires_in),
            r matches Some(t) ==> t.access_token == access_token && t.token_type == token_type
                && t.expires_at == instant_after(now as int, wrapped_i64(expires_in)),
    {
        let seconds: i128 = if expires_in <= 9_223_372_036_854_775_807u64 {
            expires_in as i128
        } else {
            (expires_in as i128) - 0x1_0000_0000_0000_0000i128
        };
        if seconds < -9_223_372_036_854_775i128 || seconds > 9_223_372_036_854_775i128 {
            return None;
        }
        let wide: i128 = now as i128 + seconds * 1_000_000i128;
        if wide < -8_334_601_315_200_000_000i128 || wide > 8_210_266_876_799_999_999i128 {
            return None;
        }
        Some(Self::from_response_at(access_token, token_type, expires_in, now))
    }

    /// The token of a token response received now; `None` exactly when, for
    /// the clock reading taken, the expiry lies beyond what a timestamp holds.
    pub fn from_response(access_token: String, token_type: String, expires_in: u64) -> (token: Option<Token>)
        ensures
            exists|now: int|
                {
                    &&& 0 <= now <= latest_instant()
                    &&& (token is None <==> !#[trigger] expiry_in_range(now, expires_in))
                    &&& (token matches Some(t) ==> t.access_token == access_token && t.token_type
                        == token_type && t.expires_at == instant_after(now, wrapped_i64(expires_in)))
                },
            !valid_delta(wrapped_i64(expires_in)) ==> token is None,
            token is None ==> !valid_delta(wrapped_i64(expires_in)) || wrapped_i64(expires_in) > 0
                || instant_after(0, wrapped_i64(expires_in)) < earliest_instant(),
    {
        let now = now_micros();
        let r = Self::from_response_checked_at(access_token, token_type, expires_in, now);
        assert(0 <= now <= latest_instant() && (r is None <==> !expiry_in_range(now as int, expires_in)));
        r
    }
}

} // verus!
