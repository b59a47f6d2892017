//! Reading the OAuth redirect that the browser sends to the local callback server.
//!
//! The request line of that redirect carries the authorization code and the
//! `state` parameter; the code is accepted only when the state matches the one
//! that was sent with the authorization request.
use vstd::prelude::*;

use crate::auth::oauth::{
    is_random_token, lemma_random_token_is_plain, lemma_unreserved_text_encodes_to_itself,
    query_param,
};
use crate::error::{AuthError, Error};
use crate::text::{chars_of, copy_range, has_prefix, string_of, text_result};

verus! {

/// Percent-decoding of `s` by `urlencoding::decode`: the decoded text, or the
/// description of the UTF-8 error met in the decoded bytes.
pub uninterp spec fn url_decoded(s: Seq<char>) -> Result<Seq<char>, Seq<char>>;

/// `urlencoding::decode`: decodes `%xx` escapes and reads the result as UTF-8.
/// Claimed: the result is `url_decoded(s)`, the error given by its text;
/// and, as the source shows (it returns the input when it holds no `%`),
/// a string without `%` decodes to itself.
#[verifier::external_body]
fn url_decode(s: &str) -> (decoded: Result<String, String>)
    ensures
        url_decoded(s@) == text_result(decoded),
        no_escape(s@) ==> text_result(decoded) == ok_text(s@),
{
    match urlencoding::decode(s) {
        Ok(v) => Ok(v.into_owned()),
        Err(e) => Err(e.to_string()),
    }
}

/// Whether `s` holds no `%`, so that it has no escape to decode.
pub open spec fn no_escape(s: Seq<char>) -> bool {
    forall|i: int| 0 <= i < s.len() ==> s[i] != '%'
}

/// What decoding gives for a parameter value: a value without `%` is itself;
/// any other is what `urlencoding::decode` makes of it.
pub open spec fn decoded_value(s: Seq<char>) -> Result<Seq<char>, Seq<char>> {
    if no_escape(s) {
        Ok(s)
    } else {
        url_decoded(s)
    }
}

/// The successful result holding `s`.
pub open spec fn ok_text(s: Seq<char>) -> Result<Seq<char>, Seq<char>> {
    Ok(s)
}

/// Unicode `White_Space`, the separator of `str::split_whitespace`.
pub open spec fn is_white_space(c: char) -> bool {
    let u = c as u32;
    ||| 0x09 <= u <= 0x0D
    ||| u == 0x20
    ||| u == 0x85
    ||| u == 0xA0
    ||| u == 0x1680
    ||| 0x2000 <= u <= 0x200A
    ||| u == 0x2028
    ||| u == 0x2029
    ||| u == 0x202F
    ||| u == 0x205F
    ||| u == 0x3000
}

/// The first index at or after `i` that holds no white space (or the length).
pub open spec fn skip_space(s: Seq<char>, i: int) -> int
    decreases s.len() - i,
{
    if i < 0 || i >= s.len() {
        s.len() as int
    } else if is_white_space(s[i]) {
        skip_space(s, i + 1)
    } else {
        i
    }
}

/// The first index at or after `i` that holds white space (or the length).
pub open spec fn skip_word(s: Seq<char>, i: int) -> int
    decreases s.len() - i,
{
    if i < 0 || i >= s.len() {
        s.len() as int
    } else if !is_white_space(s[i]) {
        skip_word(s, i + 1)
    } else {
        i
    }
}

/// The second white-space separated word of `s`, if it has one
/// (`s.split_whitespace().nth(1)`).
pub open spec fn second_word(s: Seq<char>) -> Option<Seq<char>> {
    let a = skip_space(s, 0);
    let b = skip_word(s, a);
    let c = skip_space(s, b);
    if c < s.len() {
        Some(s.subrange(c, skip_word(s, c)))
    } else {
        None
    }
}

/// The first index at or after `i` that holds `c` (or the length).
pub open spec fn find_char(s: Seq<char>, c: char, i: int) -> int
    decreases s.len() - i,
{
    if i < 0 || i >= s.len() {
        s.len() as int
    } else if s[i] == c {
        i
    } else {
        find_char(s, c, i + 1)
    }
}

/// `s` with every leading repetition of the non-empty `p` removed (`trim_start_matches`).
pub open spec fn strip_leading(s: Seq<char>, p: Seq<char>) -> Seq<char>
    decreases s.len(),
{
    if p.len() > 0 && has_prefix(s, p) {
        strip_leading(s.skip(p.len() as int), p)
    } else {
        s
    }
}

/// The pieces of `s` between occurrences of `c` (`str::split`).
pub open spec fn split_on(s: Seq<char>, c: char) -> Seq<Seq<char>>
    decreases s.len(),
{
    let k = find_char(s, c, 0);
    if k >= s.len() {
        seq![s]
    } else {
        proof {
            lemma_find_char_bounds(s, c, 0);
        }
        seq![s.take(k)] + split_on(s.skip(k + 1), c)
    }
}

/// A search from `i` ends between `i` and the length.
pub proof fn lemma_find_char_bounds(s: Seq<char>, c: char, i: int)
    requires
        0 <= i <= s.len(),
    ensures
        i <= find_char(s, c, i) <= s.len(),
    decreases s.len() - i,
{
    if i < s.len() && s[i] != c {
        lemma_find_char_bounds(s, c, i + 1);
    }
}

/// The prefix of the callback path; the query follows it.
pub open spec fn callback_prefix() -> Seq<char> {
    "/callback?"@
}

/// The message when the returned state differs from the expected one.
pub open spec fn state_mismatch_text() -> Seq<char> {
    "OAuth state mismatch: possible CSRF attack"@
}

/// The message when the callback carries no code.
pub open spec fn missing_code_text() -> Seq<char> {
    "No authorization code found in callback"@
}

/// Reads the `key=value` parameters in order: a `code` or `state` parameter
/// replaces the value read before it, once decoded; the first value that does
/// not decode stops the reading with its error.
pub open spec fn scan_params(
    params: Seq<Seq<char>>,
    code: Option<Seq<char>>,
    state: Option<Seq<char>>,
) -> Result<(Option<Seq<char>>, Option<Seq<char>>), Seq<char>>
    decreases params.len(),
{
    if params.len() == 0 {
        Ok((code, state))
    } else {
        let p = params[0];
        let rest = params.drop_first();
        let k = find_char(p, '=', 0);
        if k >= p.len() {
            scan_params(rest, code, state)
        } else {
            let key = p.take(k);
            let value = p.skip(k + 1);
            if key == "code"@ {
                match decoded_value(value) {
                    Ok(v) => scan_params(rest, Some(v), state),
                    Err(e) => Err(e),
                }
            } else if key == "state"@ {
                match decoded_value(value) {
                    Ok(v) => scan_params(rest, code, Some(v)),
                    Err(e) => Err(e),
                }
            } else {
                scan_params(rest, code, state)
            }
        }
    }
}

/// The key of a `key=value` parameter, or `None` for a piece without `=`.
pub open spec fn param_key(p: Seq<char>) -> Option<Seq<char>> {
    let k = find_char(p, '=', 0);
    if k >= p.len() {
        None
    } else {
        Some(p.take(k))
    }
}

/// Whether a piece of the query is neither a `code` nor a `state` parameter.
pub open spec fn is_other_param(p: Seq<char>) -> bool {
    param_key(p) != Some("code"@) && param_key(p) != Some("state"@)
}

/// A piece of the query that is neither a `code` nor a `state` parameter is
/// skipped wherever it stands: reading the parameters with it gives what
/// reading them without it gives, whatever was read before.
pub proof fn lemma_other_param_is_skipped(
    before: Seq<Seq<char>>,
    p: Seq<char>,
    after: Seq<Seq<char>>,
    code: Option<Seq<char>>,
    state: Option<Seq<char>>,
)
    requires
        is_other_param(p),
    ensures
        scan_params(before + seq![p] + after, code, state) == scan_params(
            before + after,
            code,
            state,
        ),
    decreases before.len(),
{
    let with = before + seq![p] + after;
    let without = before + after;
    if before.len() == 0 {
        assert(with[0] == p);
        assert(with.drop_first() =~= after);
        assert(without =~= after);
    } else {
        assert(with[0] == before[0]);
        assert(without[0] == before[0]);
        assert(with.drop_first() =~= before.drop_first() + seq![p] + after);
        assert(without.drop_first() =~= before.drop_first() + after);
        let q = before[0];
        let k = find_char(q, '=', 0);
        if k < q.len() {
            let value = q.skip(k + 1);
            match decoded_value(value) {
                Ok(v) => {
                    lemma_other_param_is_skipped(before.drop_first(), p, after, Some(v), state);
                    lemma_other_param_is_skipped(before.drop_first(), p, after, code, Some(v));
                },
                Err(_) => {},
            }
        }
        lemma_other_param_is_skipped(before.drop_first(), p, after, code, state);
    }
}

/// What the callback request line yields: the authorization code, or the
/// text of the token-fetch error.
pub open spec fn callback_outcome(line: Seq<char>, expected_state: Seq<char>) -> Result<
    Seq<char>,
    Seq<char>,
> {
    match second_word(line) {
        Some(target) => if has_prefix(target, callback_prefix()) {
            let query = strip_leading(target, callback_prefix());
            match scan_params(split_on(query, '&'), None, None) {
                Err(e) => Err(e),
                Ok((code, state)) => if state != Some(expected_state) {
                    Err(state_mismatch_text())
                } else {
                    match code {
                        Some(c) => Ok(c),
                        None => Err(missing_code_text()),
                    }
                },
            }
        } else {
            Err(missing_code_text())
        },
        None => Err(missing_code_text()),
    }
}

fn skip_space_from(s: &Vec<char>, i: usize) -> (r: usize)
    requires
        i <= s@.len(),
    ensures
        r == skip_space(s@, i as int),
        i <= r <= s@.len(),
{
    let mut j = i;
    while j < s.len() && is_white_space_char(s[j])
        invariant
            i <= j <= s@.len(),
            skip_space(s@, j as int) == skip_space(s@, i as int),
        decreases s@.len() - j,
    {
        j = j + 1;
    }
    j
}

fn skip_word_from(s: &Vec<char>, i: usize) -> (r: usize)
    requires
        i <= s@.len(),
    ensures
        r == skip_word(s@, i as int),
        i <= r <= s@.len(),
{
    let mut j = i;
    while j < s.len() && !is_white_space_char(s[j])
        invariant
            i <= j <= s@.len(),
            skip_word(s@, j as int) == skip_word(s@, i as int),
        decreases s@.len() - j,
    {
        j = j + 1;
    }
    j
}

fn find_char_from(s: &Vec<char>, c: char, i: usize) -> (r: usize)
    requires
        i <= s@.len(),
    ensures
        r == find_char(s@, c, i as int),
        i <= r <= s@.len(),
{
    let mut j = i;
    while j < s.len() && s[j] != c
        invariant
            i <= j <= s@.len(),
            find_char(s@, c, j as int) == find_char(s@, c, i as int),
        decreases s@.len() - j,
    {
        j = j + 1;
    }
    j
}

/// Whether `c` is Unicode white space.
pub fn is_white_space_char(c: char) -> (r: bool)
    ensures
        r == is_white_space(c),
{
    let u = c as u32;
    (0x09 <= u && u <= 0x0D) || u == 0x20 || u == 0x85 || u == 0xA0 || u == 0x1680 || (0x2000
        <= u && u <= 0x200A) || u == 0x2028 || u == 0x2029 || u == 0x202F || u == 0x205F || u
        == 0x3000
}

fn vec_has_prefix(s: &Vec<char>, p: &Vec<char>) -> (r: bool)
    ensures
        r == has_prefix(s@, p@),
{
    if p.len() > s.len() {
        return false;
    }
    for i in 0..p.len()
        invariant
            p@.len() <= s@.len(),
            forall|j: int| 0 <= j < i ==> s@[j] == p@[j],
    {
        if s[i] != p[i] {
            assert(s@.subrange(0, p@.len() as int)[i as int] != p@[i as int]);
            return false;
        }
    }
    assert(s@.subrange(0, p@.len() as int) =~= p@);
    true
}

fn token_fetch(message: &str) -> (e: Error)
    ensures
        e matches Error::Auth(AuthError::TokenFetch(m)) && m@ == message@,
{
    Error::Auth(AuthError::TokenFetch(String::from_str(message)))
}

/// Reads the authorization code from the request line of the OAuth callback
/// (`GET /callback?code=...&state=... HTTP/1.1`), checking that the `state`
/// parameter equals `expected_state` to prevent CSRF attacks.
pub fn parse_callback_request(request_line: &str, expected_state: &str) -> (r: Result<
    String,
    Error,
>)
    ensures
        match callback_outcome(request_line@, expected_state@) {
            Ok(code) => r matches Ok(c) && c@ == code,
            Err(text) => r matches Err(Error::Auth(AuthError::TokenFetch(m))) && m@ == text,
        },
{
    let line = chars_of(request_line);
    let a = skip_space_from(&line, 0);
    let b = skip_word_from(&line, a);
    let c = skip_space_from(&line, b);
    if c >= line.len() {
        return Err(token_fetch("No authorization code found in callback"));
    }
    let d = skip_word_from(&line, c);
    let target = copy_range(&line, c, d);
    let prefix = chars_of("/callback?");
    proof {
        reveal_strlit("/callback?");
    }
    if !vec_has_prefix(&target, &prefix) {
        return Err(token_fetch("No authorization code found in callback"));
    }
    assert(has_prefix(target@, callback_prefix()));
    assert(second_word(request_line@) == Some(target@));
    // strip every leading repetition of the prefix
    let mut start: usize = 0;
    assert(target@.skip(0) =~= target@);
    loop
        invariant_except_break
            start <= target@.len(),
            prefix@ == callback_prefix(),
            prefix@.len() > 0,
            strip_leading(target@.skip(start as int), prefix@) == strip_leading(target@, prefix@),
        ensures
            start <= target@.len(),
            target@.skip(start as int) == strip_leading(target@, prefix@),
        decreases target@.len() - start,
    {
        let tail = copy_range(&target, start, target.len());
        assert(tail@ =~= target@.skip(start as int));
        if !vec_has_prefix(&tail, &prefix) {
            break;
        }
        proof {
            assert(tail@.skip(prefix@.len() as int) =~= target@.skip(start + prefix@.len()));
        }
        start = start + prefix.len();
    }
    let query = copy_range(&target, start, target.len());
    assert(query@ =~= strip_leading(target@, prefix@));
    let code_key = String::from_str("code");
    let state_key = String::from_str("state");
    proof {
        reveal_strlit("code");
        reveal_strlit("state");
    }
    let mut code: Option<String> = None;
    let mut state: Option<String> = None;
    let mut pos: usize = 0;
    let ghost whole = split_on(query@, '&');
    assert(query@.skip(0) =~= query@);
    // each round reads the piece that begins at `pos`
    loop
        invariant_except_break
            pos <= query@.len(),
            second_word(request_line@) == Some(target@),
            has_prefix(target@, callback_prefix()),
            query@ == strip_leading(target@, callback_prefix()),
            whole == split_on(query@, '&'),
            code_key@ == "code"@,
            state_key@ == "state"@,
            scan_params(whole, None, None) == scan_params(
                split_on(query@.skip(pos as int), '&'),
                code.deep_view(),
                state.deep_view(),
            ),
        ensures
            scan_params(whole, None, None) == Ok::<
                (Option<Seq<char>>, Option<Seq<char>>),
                Seq<char>,
            >((code.deep_view(), state.deep_view())),
        decreases query@.len() - pos,
    {
        let ghost here = query@.skip(pos as int);
        let ghost before_code = code.deep_view();
        let ghost before_state = state.deep_view();
        let end = find_char_from(&query, '&', pos);
        proof {
            lemma_find_char_skip(query@, '&', pos as int);
        }
        let piece = copy_range(&query, pos, end);
        assert(piece@ =~= here.take(end - pos));
        let eq = find_char_from(&piece, '=', 0);
        let ghost params = split_on(here, '&');
        assert(params[0] == piece@);
        let ghost rest = params.drop_first();
        if eq < piece.len() {
            let key = string_of(copy_range(&piece, 0, eq).as_slice());
            let value = string_of(copy_range(&piece, eq + 1, piece.len()).as_slice());
            assert(key@ =~= piece@.take(eq as int));
            assert(value@ =~= piece@.skip(eq + 1));
            if key == code_key {
                match url_decode(value.as_str()) {
                    Ok(v) => {
                        assert(scan_params(params, before_code, before_state) == scan_params(
                            rest,
                            Some(v@),
                            before_state,
                        ));
                        code = Some(v);
                    },
                    Err(e) => {
                        assert(scan_params(params, before_code, before_state) == Err::<
                            (Option<Seq<char>>, Option<Seq<char>>),
                            Seq<char>,
                        >(e@));
                        proof {
                            lemma_scan_error_outcome(request_line@, expected_state@, whole, e@);
                        }
                        return Err(Error::Auth(AuthError::TokenFetch(e)));
                    },
                }
            } else if key == state_key {
                match url_decode(value.as_str()) {
                    Ok(v) => {
                        assert(scan_params(params, before_code, before_state) == scan_params(
                            rest,
                            before_code,
                            Some(v@),
                        ));
                        state = Some(v);
                    },
                    Err(e) => {
                        assert(scan_params(params, before_code, before_state) == Err::<
                            (Option<Seq<char>>, Option<Seq<char>>),
                            Seq<char>,
                        >(e@));
                        proof {
                            lemma_scan_error_outcome(request_line@, expected_state@, whole, e@);
                        }
                        return Err(Error::Auth(AuthError::TokenFetch(e)));
                    },
                }
            } else {
                assert(scan_params(params, before_code, before_state) == scan_params(
                    rest,
                    before_code,
                    before_state,
                ));
            }
        } else {
            assert(scan_params(params, before_code, before_state) == scan_params(
                rest,
                before_code,
                before_state,
            ));
        }
        if end >= query.len() {
            assert(params.len() == 1);
            assert(rest.len() == 0);
            break;
        }
        proof {
            assert(query@.skip(end + 1) =~= here.skip(end - pos + 1));
            assert(rest == split_on(query@.skip(end + 1), '&'));
        }
        pos = end + 1;
    }
    let expected = String::from_str(expected_state);
    let state_matches = match &state {
        Some(s) => *s == expected,
        None => false,
    };
    if !state_matches {
        return Err(token_fetch("OAuth state mismatch: possible CSRF attack"));
    }
    match code {
        Some(c) => Ok(c),
        None => Err(token_fetch("No authorization code found in callback")),
    }
}

/// The request line that the browser sends when the identity provider
/// redirects with `code` and `state`.
pub open spec fn redirect_request_line(code: Seq<char>, state: Seq<char>) -> Seq<char> {
    "GET "@ + "/callback?code="@ + code + "&state="@ + state + " HTTP/1.1"@
}

/// Whether `s` can stand as a parameter value as it is: no white space, no `&`.
pub open spec fn plain_value(s: Seq<char>) -> bool {
    forall|i: int| 0 <= i < s.len() ==> !is_white_space(s[i]) && s[i] != '&'
}

/// A redirect that returns the expected state yields its code: the code is
/// accepted when the state matches, whatever the values (so long as they hold
/// no escape and no separator).
pub proof fn lemma_redirect_with_expected_state_yields_code(code: Seq<char>, state: Seq<char>)
    requires
        plain_value(code),
        plain_value(state),
        no_escape(code),
        no_escape(state),
    ensures
        callback_outcome(redirect_request_line(code, state), state) == ok_text(code),
{
    lemma_redirect_scan(code, state);
}

/// A redirect whose state differs from the expected one is refused as a
/// possible CSRF attack, whatever code it carries.
pub proof fn lemma_redirect_with_other_state_is_refused(
    code: Seq<char>,
    state: Seq<char>,
    expected: Seq<char>,
)
    requires
        plain_value(code),
        plain_value(state),
        no_escape(code),
        no_escape(state),
        state != expected,
    ensures
        callback_outcome(redirect_request_line(code, state), expected) == Err::<
            Seq<char>,
            Seq<char>,
        >(state_mismatch_text()),
{
    lemma_redirect_scan(code, state);
}

/// The CSRF state drawn for the authorization URL stands in its query as it
/// is (`state=` and the state, unencoded), and a redirect that brings that
/// state back with a code is accepted with that code.
pub proof fn lemma_drawn_state_comes_back(code: Seq<char>, state: Seq<char>)
    requires
        is_random_token(state),
        plain_value(code),
        no_escape(code),
    ensures
        query_param(("state"@, state)) == "state"@ + "="@ + state,
        callback_outcome(redirect_request_line(code, state), state) == ok_text(code),
{
    lemma_random_token_is_plain(state);
    lemma_unreserved_text_encodes_to_itself(state);
    assert(plain_value(state));
    assert(no_escape(state));
    lemma_redirect_with_expected_state_yields_code(code, state);
}

#[verifier::rlimit(40)]
proof fn lemma_redirect_scan(code: Seq<char>, state: Seq<char>)
    requires
        plain_value(code),
        plain_value(state),
        no_escape(code),
        no_escape(state),
    ensures
        second_word(redirect_request_line(code, state)) == Some(
            "/callback?code="@ + code + "&state="@ + state,
        ),
        has_prefix("/callback?code="@ + code + "&state="@ + state, callback_prefix()),
        scan_params(
            split_on(
                strip_leading("/callback?code="@ + code + "&state="@ + state, callback_prefix()),
                '&',
            ),
            None,
            None,
        ) == Ok::<(Option<Seq<char>>, Option<Seq<char>>), Seq<char>>((Some(code), Some(state))),
{
    reveal_strlit("GET ");
    reveal_strlit("/callback?code=");
    reveal_strlit("&state=");
    reveal_strlit(" HTTP/1.1");
    reveal_strlit("/callback?");
    reveal_strlit("code");
    reveal_strlit("state");
    let target = "/callback?code="@ + code + "&state="@ + state;
    let line = redirect_request_line(code, state);
    assert(line =~= "GET "@ + target + " HTTP/1.1"@);
    let t = target.len() as int;
    // the method, then the target, then the version
    lemma_skip_space_run(line, 0, 0);
    lemma_skip_word_run(line, 0, 3);
    lemma_skip_space_run(line, 3, 4);
    assert forall|k: int| 4 <= k < 4 + t implies !is_white_space(#[trigger] line[k]) by {
        assert(line[k] == target[k - 4]);
        if k - 4 >= 15 && k - 4 < 15 + code.len() {
            assert(target[k - 4] == code[k - 4 - 15]);
        } else if k - 4 >= 15 + code.len() + 7 {
            assert(target[k - 4] == state[k - 4 - 15 - code.len() - 7]);
        }
    }
    lemma_skip_word_run(line, 4, 4 + t);
    assert(line.subrange(4, 4 + t) =~= target);
    // the prefix is stripped once: the query begins with `c`
    let query = "code="@ + code + "&state="@ + state;
    reveal_strlit("code=");
    reveal_strlit("state=");
    reveal_strlit("&");
    assert("/callback?code="@ =~= callback_prefix() + "code="@);
    assert("&state="@ =~= "&"@ + "state="@);
    assert(target =~= callback_prefix() + query);
    assert(target.subrange(0, 10) =~= callback_prefix());
    assert(target.skip(10) =~= query);
    assert(!has_prefix(query, callback_prefix())) by {
        assert(query.subrange(0, 10)[0] != callback_prefix()[0]);
    }
    assert(strip_leading(target, callback_prefix()) == strip_leading(query, callback_prefix()));
    // the query splits into the two parameters
    let first = "code="@ + code;
    let second = "state="@ + state;
    let c = code.len() as int;
    assert(query =~= first + "&"@ + second);
    assert forall|k: int| 0 <= k < 5 + c implies #[trigger] query[k] != '&' by {
        if k >= 5 {
            assert(query[k] == code[k - 5]);
        }
    }
    lemma_find_char_run(query, '&', 0, 5 + c);
    assert(query.take(5 + c) =~= first);
    assert(query.skip(5 + c + 1) =~= second);
    assert forall|k: int| 0 <= k < second.len() implies #[trigger] second[k] != '&' by {
        if k >= 6 {
            assert(second[k] == state[k - 6]);
        }
    }
    lemma_find_char_run(second, '&', 0, second.len() as int);
    assert(split_on(second, '&') == seq![second]);
    assert(split_on(query, '&') =~= seq![first, second]);
    // each parameter names its key before the first `=`
    lemma_find_char_run(first, '=', 0, 4);
    lemma_find_char_run(second, '=', 0, 5);
    assert(first.take(4) =~= "code"@);
    assert(first.skip(5) =~= code);
    assert(second.take(5) =~= "state"@);
    assert(second.skip(6) =~= state);
    let params = seq![first, second];
    assert(params.drop_first() =~= seq![second]);
    assert(seq![second].drop_first() =~= Seq::<Seq<char>>::empty());
    assert(scan_params(seq![second], Some(code), None) == scan_params(
        Seq::<Seq<char>>::empty(),
        Some(code),
        Some(state),
    ));
}

/// The request line of a redirect to the callback path with the query `query`.
pub open spec fn callback_request_line(query: Seq<char>) -> Seq<char> {
    "GET "@ + callback_prefix() + query + " HTTP/1.1"@
}

/// A parameter with any other key, standing between the state and the code
/// of a redirect, does not change what the redirect yields: the code is
/// accepted when the state matches.
pub proof fn lemma_redirect_with_other_param_yields_code(
    code: Seq<char>,
    state: Seq<char>,
    key: Seq<char>,
    value: Seq<char>,
)
    requires
        plain_value(code),
        plain_value(state),
        no_escape(code),
        no_escape(state),
        plain_value(key),
        plain_value(value),
        forall|i: int| 0 <= i < key.len() ==> key[i] != '=',
        key != "code"@,
        key != "state"@,
    ensures
        callback_outcome(
            callback_request_line(
                "state="@ + state + "&"@ + key + "="@ + value + "&"@ + "code="@ + code,
            ),
            state,
        ) == ok_text(code),
{
    reveal_strlit("state=");
    reveal_strlit("code=");
    reveal_strlit("&");
    reveal_strlit("=");
    reveal_strlit("code");
    reveal_strlit("state");
    let first = "state="@ + state;
    let mid = key + "="@ + value;
    let last = "code="@ + code;
    let query = "state="@ + state + "&"@ + key + "="@ + value + "&"@ + "code="@ + code;
    assert(query =~= first + "&"@ + (mid + "&"@ + last));
    // no white space anywhere in the query, and it does not begin with `/`
    assert forall|k: int| 0 <= k < query.len() implies !is_white_space(#[trigger] query[k]) by {
        let a = 6 + state.len();
        let b = a + 1 + key.len();
        let c = b + 1 + value.len();
        if 6 <= k < a {
            assert(query[k] == state[k - 6]);
        } else if a + 1 <= k < b {
            assert(query[k] == key[k - a - 1]);
        } else if b + 1 <= k < c {
            assert(query[k] == value[k - b - 1]);
        } else if k >= c + 6 {
            assert(query[k] == code[k - c - 6]);
        }
    }
    assert(query[0] == 's');
    lemma_callback_line(query);
    // the query splits into its three parameters
    assert forall|k: int| 0 <= k < first.len() implies #[trigger] first[k] != '&' by {
        if k >= 6 {
            assert(first[k] == state[k - 6]);
        }
    }
    assert forall|k: int| 0 <= k < mid.len() implies #[trigger] mid[k] != '&' by {
        if k > key.len() {
            assert(mid[k] == value[k - key.len() - 1]);
        } else if k < key.len() {
            assert(mid[k] == key[k]);
        }
    }
    assert forall|k: int| 0 <= k < last.len() implies #[trigger] last[k] != '&' by {
        if k >= 5 {
            assert(last[k] == code[k - 5]);
        }
    }
    lemma_split_join(first, mid + "&"@ + last);
    lemma_split_join(mid, last);
    lemma_split_single(last);
    assert(split_on(query, '&') =~= seq![first, mid, last]);
    // the middle parameter has another key, so it is skipped
    assert forall|k: int| 0 <= k < key.len() implies #[trigger] mid[k] != '=' by {
        assert(mid[k] == key[k]);
    }
    lemma_find_char_run(mid, '=', 0, key.len() as int);
    assert(mid.take(key.len() as int) =~= key);
    assert(is_other_param(mid));
    lemma_other_param_is_skipped(seq![first], mid, seq![last], None, None);
    assert(seq![first] + seq![mid] + seq![last] =~= seq![first, mid, last]);
    assert(seq![first] + seq![last] =~= seq![first, last]);
    // the state and the code are read
    lemma_find_char_run(first, '=', 0, 5);
    lemma_find_char_run(last, '=', 0, 4);
    assert(first.take(5) =~= "state"@);
    assert(first.skip(6) =~= state);
    assert(last.take(4) =~= "code"@);
    assert(last.skip(5) =~= code);
    let params = seq![first, last];
    assert(params.drop_first() =~= seq![last]);
    assert(seq![last].drop_first() =~= Seq::<Seq<char>>::empty());
    assert(scan_params(seq![last], None, Some(state)) == scan_params(
        Seq::<Seq<char>>::empty(),
        Some(code),
        Some(state),
    ));
    assert(scan_params(params, None, None) == Ok::<
        (Option<Seq<char>>, Option<Seq<char>>),
        Seq<char>,
    >((Some(code), Some(state))));
}

/// A request line to the callback path with a query free of white space
/// (and not itself beginning with `/`) names that path and query.
proof fn lemma_callback_line(query: Seq<char>)
    requires
        forall|k: int| 0 <= k < query.len() ==> !is_white_space(#[trigger] query[k]),
        query.len() > 0,
        query[0] != '/',
    ensures
        second_word(callback_request_line(query)) == Some(callback_prefix() + query),
        has_prefix(callback_prefix() + query, callback_prefix()),
        strip_leading(callback_prefix() + query, callback_prefix()) == query,
{
    reveal_strlit("GET ");
    reveal_strlit(" HTTP/1.1");
    reveal_strlit("/callback?");
    let target = callback_prefix() + query;
    let line = callback_request_line(query);
    assert(line =~= "GET "@ + target + " HTTP/1.1"@);
    let t = target.len() as int;
    lemma_skip_space_run(line, 0, 0);
    lemma_skip_word_run(line, 0, 3);
    lemma_skip_space_run(line, 3, 4);
    assert forall|k: int| 4 <= k < 4 + t implies !is_white_space(#[trigger] line[k]) by {
        assert(line[k] == target[k - 4]);
        if k - 4 >= 10 {
            assert(target[k - 4] == query[k - 14]);
        }
    }
    lemma_skip_word_run(line, 4, 4 + t);
    assert(line.subrange(4, 4 + t) =~= target);
    assert(target.subrange(0, 10) =~= callback_prefix());
    assert(target.skip(10) =~= query);
    assert(!has_prefix(query, callback_prefix())) by {
        if query.len() >= 10 {
            assert(query.subrange(0, 10)[0] != callback_prefix()[0]);
        }
    }
    assert(strip_leading(target, callback_prefix()) == strip_leading(query, callback_prefix()));
}

/// Splitting at `&` a text that begins with `a` (free of `&`) and `&` gives
/// `a`, then the pieces of the rest.
proof fn lemma_split_join(a: Seq<char>, b: Seq<char>)
    requires
        forall|k: int| 0 <= k < a.len() ==> #[trigger] a[k] != '&',
    ensures
        split_on(a + "&"@ + b, '&') == seq![a] + split_on(b, '&'),
{
    reveal_strlit("&");
    let s = a + "&"@ + b;
    assert forall|k: int| 0 <= k < a.len() implies #[trigger] s[k] != '&' by {
        assert(s[k] == a[k]);
    }
    lemma_find_char_run(s, '&', 0, a.len() as int);
    assert(s.take(a.len() as int) =~= a);
    assert(s.skip(a.len() as int + 1) =~= b);
}

/// A text free of `&` is a single piece.
proof fn lemma_split_single(a: Seq<char>)
    requires
        forall|k: int| 0 <= k < a.len() ==> #[trigger] a[k] != '&',
    ensures
        split_on(a, '&') == seq![a],
{
    lemma_find_char_run(a, '&', 0, a.len() as int);
}

/// A run of non-space characters from `i` to `j`, ended by space or the end,
/// is skipped to `j`.
proof fn lemma_skip_word_run(s: Seq<char>, i: int, j: int)
    requires
        0 <= i <= j <= s.len(),
        forall|k: int| i <= k < j ==> !is_white_space(#[trigger] s[k]),
        j == s.len() || is_white_space(s[j]),
    ensures
        skip_word(s, i) == j,
    decreases j - i,
{
    if i < j {
        lemma_skip_word_run(s, i + 1, j);
    }
}

/// A run of spaces from `i` to `j`, ended by a non-space or the end, is
/// skipped to `j`.
proof fn lemma_skip_space_run(s: Seq<char>, i: int, j: int)
    requires
        0 <= i <= j <= s.len(),
        forall|k: int| i <= k < j ==> is_white_space(#[trigger] s[k]),
        j == s.len() || !is_white_space(s[j]),
    ensures
        skip_space(s, i) == j,
    decreases j - i,
{
    if i < j {
        lemma_skip_space_run(s, i + 1, j);
    }
}

/// A run without `c` from `i` to `j`, ended by `c` or the end, is searched to `j`.
proof fn lemma_find_char_run(s: Seq<char>, c: char, i: int, j: int)
    requires
        0 <= i <= j <= s.len(),
        forall|k: int| i <= k < j ==> #[trigger] s[k] != c,
        j == s.len() || s[j] == c,
    ensures
        find_char(s, c, i) == j,
    decreases j - i,
{
    if i < j {
        lemma_find_char_run(s, c, i + 1, j);
    }
}

/// When the parameters fail to decode, the callback fails with that error.
proof fn lemma_scan_error_outcome(
    line: Seq<char>,
    expected: Seq<char>,
    params: Seq<Seq<char>>,
    e: Seq<char>,
)
    requires
        second_word(line) is Some,
        has_prefix(second_word(line)->0, callback_prefix()),
        params == split_on(strip_leading(second_word(line)->0, callback_prefix()), '&'),
        scan_params(params, None, None) == Err::<(Option<Seq<char>>, Option<Seq<char>>), Seq<char>>(e),
    ensures
        callback_outcome(line, expected) == Err::<Seq<char>, Seq<char>>(e),
{
}

/// Searching from `i` in `s` is searching from 0 in `s.skip(i)`, shifted by `i`.
proof fn lemma_find_char_skip(s: Seq<char>, c: char, i: int)
    requires
        0 <= i <= s.len(),
    ensures
        find_char(s, c, i) == i + find_char(s.skip(i), c, 0),
    decreases s.len() - i,
{
    lemma_find_char_shift(s, c, i, i);
}

proof fn lemma_find_char_shift(s: Seq<char>, c: char, i: int, j: int)
    requires
        0 <= i <= j <= s.len(),
    ensures
        find_char(s, c, j) == i + find_char(s.skip(i), c, j - i),
    decreases s.len() - j,
{
    if j < s.len() {
        lemma_find_char_shift(s, c, i, j + 1);
    }
}

} // verus!
