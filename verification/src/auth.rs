//! OAuth Authorization Code + PKCE login, token refresh and the token
//! store: every decision of the flow, with the network, the browser and the
//! disk left to the caller.
use vstd::prelude::*;

use base64::Engine;
use sha2::Digest;

use crate::client::{opt_view, pair, pairs_view, Pair};
use crate::error::CliError;
use crate::text::{
    chars_of, clone_opt, concat2, concat3, decimal, find_char, has_prefix, is_whitespace, own,
    push_char, push_decimal, starts_with, string_from_chars, unicode_white_space, views,
};

verus! {

// ============================================================================
// Token store
// ============================================================================

/// Stored OAuth tokens.
#[derive(Debug, Clone)]
pub struct TokenStore {
    pub access_token: String,
    pub refresh_token: Option<String>,
    /// Unix timestamp when the access token expires.
    pub expires_at: Option<i64>,
    /// The API URL these tokens are for.
    pub api_url: String,
    /// Zitadel domain (needed for token refresh).
    pub zitadel_domain: String,
    /// OAuth client ID (needed for token refresh).
    pub client_id: String,
}

/// The access token counts as expired from 30 seconds before its expiry;
/// a token without an expiry never does.
pub open spec fn expired_at(expires_at: Option<i64>, now: i64) -> bool {
    match expires_at {
        Some(exp) => now >= exp - 30,
        None => false,
    }
}

/// Whether the stored access token has expired at the Unix time `now`.
pub fn is_expired_at(store: &TokenStore, now: i64) -> (res: bool)
    requires
        store.expires_at matches Some(exp) ==> exp >= i64::MIN + 30,
    ensures
        res == expired_at(store.expires_at, now),
{
    match store.expires_at {
        Some(exp) => now >= exp - 30,
        None => false,
    }
}

/// `Utc::now().timestamp()` of `chrono`: the current Unix time in seconds.
/// Nothing is stated of it: it is the clock.
#[verifier::external_body]
fn now_timestamp() -> i64 {
    chrono::Utc::now().timestamp()
}

/// Whether the stored access token has expired now.
pub fn is_expired(store: &TokenStore) -> (res: bool)
    requires
        store.expires_at matches Some(exp) ==> exp >= i64::MIN + 30,
    ensures
        store.expires_at is None ==> !res,
        exists|now: i64| res == expired_at(store.expires_at, now),
{
    let now = now_timestamp();
    is_expired_at(store, now)
}

/// Once the token counts as expired it stays so as time goes on.
pub proof fn expiry_is_monotonic(expires_at: Option<i64>, earlier: i64, later: i64)
    requires
        earlier <= later,
        expired_at(expires_at, earlier),
    ensures
        expired_at(expires_at, later),
{
}

/// The margin is thirty seconds: a token counts as expired from thirty
/// seconds before its expiry on, and not a second earlier; a token without
/// an expiry never counts as expired.
pub proof fn expiry_has_a_thirty_second_margin(exp: i64, now: i64)
    ensures
        expired_at(None, now) == false,
        expired_at(Some(exp), now) <==> now + 30 >= exp,
        exp >= i64::MIN + 31 ==> !expired_at(Some(exp), (exp - 31) as i64),
        exp >= i64::MIN + 30 ==> expired_at(Some(exp), (exp - 30) as i64),
{
}

// ============================================================================
// PKCE and state
// ============================================================================

/// The URL-safe base64 text of `bytes`, without padding, as `base64`'s
/// `URL_SAFE_NO_PAD` engine writes it.
pub uninterp spec fn base64_url(bytes: Seq<u8>) -> Seq<char>;

/// The SHA-256 digest of `data`, as `sha2` computes it.
pub uninterp spec fn sha256(data: Seq<u8>) -> Seq<u8>;

/// `URL_SAFE_NO_PAD.encode` of `base64`: the URL-safe base64 text of the
/// bytes without padding. The encoding is named, not stated.
#[verifier::external_body]
fn encode_base64_url(bytes: &[u8]) -> (res: String)
    ensures
        res@ == base64_url(bytes@),
{
    base64::engine::general_purpose::URL_SAFE_NO_PAD.encode(bytes)
}

/// `Sha256::digest` of `sha2`: the digest of the bytes, 32 bytes long. The
/// hash is named, not stated.
#[verifier::external_body]
fn sha256_digest(data: &[u8]) -> (res: Vec<u8>)
    ensures
        res@ == sha256(data@),
        res@.len() == 32,
{
    sha2::Sha256::digest(data).to_vec()
}

/// `rand::random::<u8>()`: a byte from the thread-local generator. Nothing
/// is stated of it: it is chance.
#[verifier::external_body]
fn random_byte() -> u8 {
    rand::random::<u8>()
}

/// `n` bytes drawn from the thread-local generator.
fn random_bytes(n: usize) -> (res: Vec<u8>)
    ensures
        res@.len() == n,
{
    let mut res: Vec<u8> = Vec::new();
    let mut i: usize = 0;
    while i < n
        invariant
            i <= n,
            res@.len() == i,
        decreases n - i,
    {
        res.push(random_byte());
        i = i + 1;
    }
    res
}

/// The PKCE pair made from random bytes: the code verifier is their
/// base64 text, the S256 challenge the base64 text of the SHA-256 digest of
/// the verifier.
pub fn pkce_from_bytes(bytes: &[u8]) -> (res: (String, String))
    ensures
        res.0@ == base64_url(bytes@),
        res.1@ == base64_url(sha256(vstd::utf8::encode_utf8(res.0@))),
{
    let verifier = encode_base64_url(bytes);
    let digest = sha256_digest(verifier.as_str().as_bytes());
    let challenge = encode_base64_url(digest.as_slice());
    (verifier, challenge)
}

/// A fresh PKCE pair: the code verifier is the base64 text of 32 random
/// bytes, the challenge that of the SHA-256 digest of the verifier.
pub fn generate_pkce() -> (res: (String, String))
    ensures
        exists|bytes: Seq<u8>|
            bytes.len() == 32 && #[trigger] base64_url(bytes) == res.0@ && res.1@ == base64_url(
                sha256(vstd::utf8::encode_utf8(res.0@)),
            ),
{
    let bytes = random_bytes(32);
    let res = pkce_from_bytes(bytes.as_slice());
    assert(base64_url(bytes@) == res.0@);
    res
}

/// A fresh `state` parameter against cross-site request forgery: the base64
/// text of 16 random bytes.
pub fn generate_state() -> (res: String)
    ensures
        exists|bytes: Seq<u8>| bytes.len() == 16 && #[trigger] base64_url(bytes) == res@,
{
    let bytes = random_bytes(16);
    encode_base64_url(bytes.as_slice())
}

// ============================================================================
// URLs of the identity provider
// ============================================================================

/// A local identity provider is spoken to over plain HTTP, any other over
/// HTTPS.
pub open spec fn scheme_for(domain: Seq<char>) -> Seq<char> {
    if has_prefix(domain, "localhost"@) || has_prefix(domain, "127."@) {
        "http"@
    } else {
        "https"@
    }
}

/// The URL scheme for the identity provider at `domain`.
pub fn oauth_scheme(domain: &str) -> (res: &'static str)
    ensures
        res@ == scheme_for(domain@),
{
    if starts_with(domain, "localhost") || starts_with(domain, "127.") {
        "http"
    } else {
        "https"
    }
}

/// The scopes the command-line client asks for.
pub const OAUTH_SCOPES: &'static str =
    "openid profile email offline_access urn:zitadel:iam:org:project:id:zitadel:aud";

/// Bytes that percent-encoding leaves as they are: ASCII letters and
/// digits, `-`, `.`, `_` and `~`.
pub open spec fn url_unreserved(b: u8) -> bool {
    (48 <= b <= 57) || (65 <= b <= 90) || (97 <= b <= 122) || b == 45 || b == 46 || b == 95
        || b == 126
}

/// The upper-case hexadecimal digit of `d`, for `d < 16`.
pub open spec fn hex_upper(d: u8) -> char {
    if d < 10 {
        (48 + d) as char
    } else {
        (55 + d) as char
    }
}

/// The percent-encoding of `bytes`: each unreserved byte stays, every
/// other becomes `%` and two upper-case hexadecimal digits.
pub open spec fn percent_encoded(bytes: Seq<u8>) -> Seq<char>
    decreases bytes.len(),
{
    if bytes.len() == 0 {
        Seq::empty()
    } else {
        let b = bytes.last();
        percent_encoded(bytes.drop_last()) + if url_unreserved(b) {
            seq![b as char]
        } else {
            seq!['%', hex_upper(b / 16), hex_upper(b % 16)]
        }
    }
}

/// `urlencoding::encode`: percent-encodes the UTF-8 bytes of `s`, leaving
/// the unreserved ones, with upper-case hexadecimal digits.
#[verifier::external_body]
fn url_encode(s: &str) -> (res: String)
    ensures
        res@ == percent_encoded(vstd::utf8::encode_utf8(s@)),
{
    urlencoding::encode(s).into_owned()
}

/// The redirect URI of the local callback server on `port`.
pub open spec fn redirect_uri_for(port: u16) -> Seq<char> {
    "http://localhost:"@ + decimal(port as nat)
}

/// The redirect URI of the local callback server on `port`.
pub fn redirect_uri(port: u16) -> (res: String)
    ensures
        res@ == redirect_uri_for(port),
{
    let mut s = String::from_str("http://localhost:");
    push_decimal(&mut s, port as u64);
    s
}

/// The authorization URL the browser is sent to.
pub open spec fn authorize_url_for(
    domain: Seq<char>,
    client_id: Seq<char>,
    redirect_uri: Seq<char>,
    challenge: Seq<char>,
    state: Seq<char>,
) -> Seq<char> {
    scheme_for(domain) + "://"@ + domain + "/oauth/v2/authorize?client_id="@ + client_id
        + "&redirect_uri="@ + percent_encoded(vstd::utf8::encode_utf8(redirect_uri))
        + "&response_type=code&scope="@ + percent_encoded(vstd::utf8::encode_utf8(OAUTH_SCOPES@))
        + "&code_challenge="@ + challenge + "&code_challenge_method=S256&state="@ + state
}

/// The authorization URL of the login: the client, the URL-encoded
/// redirect URI and scopes, the S256 challenge and the state.
pub fn authorize_url(
    domain: &str,
    client_id: &str,
    redirect_uri: &str,
    challenge: &str,
    state: &str,
) -> (res: String)
    ensures
        res@ == authorize_url_for(domain@, client_id@, redirect_uri@, challenge@, state@),
{
    let mut s = String::from_str(oauth_scheme(domain));
    s.append("://");
    s.append(domain);
    s.append("/oauth/v2/authorize?client_id=");
    s.append(client_id);
    s.append("&redirect_uri=");
    let r = url_encode(redirect_uri);
    s.append(r.as_str());
    s.append("&response_type=code&scope=");
    let sc = url_encode(OAUTH_SCOPES);
    s.append(sc.as_str());
    s.append("&code_challenge=");
    s.append(challenge);
    s.append("&code_challenge_method=S256&state=");
    s.append(state);
    s
}

/// The token endpoint of the identity provider at `domain`.
pub open spec fn token_url_for(domain: Seq<char>) -> Seq<char> {
    scheme_for(domain) + "://"@ + domain + "/oauth/v2/token"@
}

/// The token endpoint of the identity provider at `domain`.
pub fn token_url(domain: &str) -> (res: String)
    ensures
        res@ == token_url_for(domain@),
{
    let mut s = String::from_str(oauth_scheme(domain));
    s.append("://");
    s.append(domain);
    s.append("/oauth/v2/token");
    s
}

// ============================================================================
// Token requests
// ============================================================================

/// A form posted to the token endpoint.
#[derive(Debug, Clone)]
pub struct TokenRequest {
    pub url: String,
    pub form: Vec<Pair>,
}

/// The form that exchanges an authorization code for tokens.
pub open spec fn code_exchange_form(
    client_id: Seq<char>,
    code: Seq<char>,
    redirect_uri: Seq<char>,
    verifier: Seq<char>,
) -> Seq<(Seq<char>, Seq<char>)> {
    seq![
        ("grant_type"@, "authorization_code"@),
        ("client_id"@, client_id),
        ("code"@, code),
        ("redirect_uri"@, redirect_uri),
        ("code_verifier"@, verifier),
    ]
}

/// The request that exchanges the authorization code for tokens, proving
/// the login with the PKCE verifier.
pub fn code_exchange_request(
    domain: &str,
    client_id: &str,
    code: &str,
    redirect_uri: &str,
    verifier: &str,
) -> (res: TokenRequest)
    ensures
        res.url@ == token_url_for(domain@),
        pairs_view(res.form@) == code_exchange_form(client_id@, code@, redirect_uri@, verifier@),
{
    let mut form: Vec<Pair> = Vec::new();
    form.push(pair("grant_type", "authorization_code"));
    form.push(pair("client_id", client_id));
    form.push(pair("code", code));
    form.push(pair("redirect_uri", redirect_uri));
    form.push(pair("code_verifier", verifier));
    let res = TokenRequest { url: token_url(domain), form };
    assert(pairs_view(res.form@) =~= code_exchange_form(
        client_id@,
        code@,
        redirect_uri@,
        verifier@,
    ));
    res
}

/// The form that trades a refresh token for a new access token.
pub open spec fn refresh_form(client_id: Seq<char>, refresh_token: Seq<char>) -> Seq<
    (Seq<char>, Seq<char>),
> {
    seq![
        ("grant_type"@, "refresh_token"@),
        ("client_id"@, client_id),
        ("refresh_token"@, refresh_token),
    ]
}

/// The request that refreshes the stored access token; an error when no
/// refresh token is stored.
pub fn refresh_request(store: &TokenStore) -> (res: Result<TokenRequest, CliError>)
    ensures
        match store.refresh_token {
            Some(rt) => res matches Ok(r) && r.url@ == token_url_for(store.zitadel_domain@)
                && pairs_view(r.form@) == refresh_form(store.client_id@, rt@),
            None => res matches Err(CliError::TokenRefreshFailed { message }) && message@
                == "No refresh token available"@,
        },
{
    match &store.refresh_token {
        Some(rt) => {
            let mut form: Vec<Pair> = Vec::new();
            form.push(pair("grant_type", "refresh_token"));
            form.push(pair("client_id", store.client_id.as_str()));
            form.push(pair("refresh_token", rt.as_str()));
            let r = TokenRequest { url: token_url(store.zitadel_domain.as_str()), form };
            assert(pairs_view(r.form@) =~= refresh_form(store.client_id@, rt@));
            Ok(r)
        },
        None => Err(
            CliError::TokenRefreshFailed {
                message: String::from_str("No refresh token available"),
            },
        ),
    }
}

// ============================================================================
// The callback of the identity provider
// ============================================================================

/// The first position at or after `i` whose character is white space
/// exactly when `ws` holds, or the end of `s`.
pub open spec fn skip_class(s: Seq<char>, i: int, ws: bool) -> int
    decreases s.len() - i,
{
    if 0 <= i < s.len() && unicode_white_space(s[i]) == ws {
        skip_class(s, i + 1, ws)
    } else {
        i
    }
}

/// The second white-space-separated word of `s`, if it has one
/// (`split_whitespace().nth(1)`).
pub open spec fn second_word(s: Seq<char>) -> Option<Seq<char>> {
    let first_start = skip_class(s, 0, true);
    let first_end = skip_class(s, first_start, false);
    let start = skip_class(s, first_end, true);
    let end = skip_class(s, start, false);
    if start < s.len() {
        Some(s.subrange(start, end))
    } else {
        None
    }
}

/// `s` cut at its first `c`, which goes (`split_once`).
pub open spec fn split_once(s: Seq<char>, c: char) -> Option<(Seq<char>, Seq<char>)>
    decreases s.len(),
{
    if s.len() == 0 {
        None
    } else if s[0] == c {
        Some((Seq::empty(), s.drop_first()))
    } else {
        match split_once(s.drop_first(), c) {
            Some((a, b)) => Some((seq![s[0]] + a, b)),
            None => None,
        }
    }
}

/// The pieces of `s` between the occurrences of `sep` (`split`): one more
/// than there are separators.
pub open spec fn split_on(s: Seq<char>, sep: char) -> Seq<Seq<char>>
    decreases s.len(),
{
    if s.len() == 0 {
        seq![Seq::empty()]
    } else {
        let rest = split_on(s.drop_last(), sep);
        if s.last() == sep {
            rest.push(Seq::empty())
        } else {
            rest.update(rest.len() - 1, rest.last().push(s.last()))
        }
    }
}

/// What `urlencoding::decode` makes of `s`: the text whose UTF-8 bytes are
/// those of `s` with each `%` and two hexadecimal digits replaced by the byte
/// they spell, or `None` where those bytes are not UTF-8.
pub uninterp spec fn url_decoded(s: Seq<char>) -> Option<Seq<char>>;

/// `urlencoding::decode`: `s` percent-decoded, `None` where the result is
/// not UTF-8. The decoding is named, not stated.
#[verifier::external_body]
fn url_decode(s: &str) -> (res: Option<String>)
    ensures
        match res {
            Some(d) => url_decoded(s@) == Some(d@),
            None => url_decoded(s@) is None,
        },
{
    match urlencoding::decode(s) {
        Ok(d) => Some(d.into_owned()),
        Err(_) => None,
    }
}

/// `s` percent-decoded, or `s` itself where that fails.
pub open spec fn decoded_or_raw(s: Seq<char>) -> Seq<char> {
    match url_decoded(s) {
        Some(d) => d,
        None => s,
    }
}

/// The parameters of the query pieces: each piece that holds `=` gives the
/// decoded name before its first `=` and the decoded value after it.
pub open spec fn query_params(pieces: Seq<Seq<char>>) -> Seq<(Seq<char>, Seq<char>)>
    decreases pieces.len(),
{
    if pieces.len() == 0 {
        Seq::empty()
    } else {
        let rest = query_params(pieces.drop_last());
        match split_once(pieces.last(), '=') {
            Some((k, v)) => rest.push((decoded_or_raw(k), decoded_or_raw(v))),
            None => rest,
        }
    }
}

/// The value of the last parameter named `key`: a later parameter of the
/// same name overrides an earlier one.
pub open spec fn param(params: Seq<(Seq<char>, Seq<char>)>, key: Seq<char>) -> Option<Seq<char>>
    decreases params.len(),
{
    if params.len() == 0 {
        None
    } else if params.last().0 == key {
        Some(params.last().1)
    } else {
        param(params.drop_last(), key)
    }
}

/// The query parameters of a request target: those of the text after its
/// first `?`, none when it has no `?`.
pub open spec fn target_params(target: Seq<char>) -> Seq<(Seq<char>, Seq<char>)> {
    let query = match split_once(target, '?') {
        Some((_, q)) => q,
        None => Seq::empty(),
    };
    query_params(split_on(query, '&'))
}

proof fn skip_class_bounds(s: Seq<char>, i: int, ws: bool)
    requires
        0 <= i <= s.len(),
    ensures
        i <= skip_class(s, i, ws) <= s.len(),
    decreases s.len() - i,
{
    if i < s.len() && unicode_white_space(s[i]) == ws {
        skip_class_bounds(s, i + 1, ws);
    }
}

/// The first position at or after `i` whose character is white space
/// exactly when `ws` holds.
fn skip_chars(cs: &Vec<char>, i: usize, ws: bool) -> (r: usize)
    requires
        i <= cs@.len(),
    ensures
        r == skip_class(cs@, i as int, ws),
        i <= r <= cs@.len(),
{
    let mut j = i;
    while j < cs.len() && is_whitespace(cs[j]) == ws
        invariant
            i <= j <= cs@.len(),
            skip_class(cs@, i as int, ws) == skip_class(cs@, j as int, ws),
        decreases cs@.len() - j,
    {
        j = j + 1;
    }
    j
}

/// The second white-space-separated word of `line`.
pub fn second_word_of(line: &str) -> (res: Option<String>)
    ensures
        match res {
            Some(w) => second_word(line@) == Some(w@),
            None => second_word(line@) is None,
        },
{
    let cs = chars_of(line);
    let a = skip_chars(&cs, 0, true);
    let b = skip_chars(&cs, a, false);
    let c = skip_chars(&cs, b, true);
    let d = skip_chars(&cs, c, false);
    if c < cs.len() {
        Some(string_from_chars(&cs, c, d))
    } else {
        None
    }
}

proof fn split_once_found(s: Seq<char>, c: char, i: int)
    requires
        0 <= i < s.len(),
        s[i] == c,
        forall|j: int| 0 <= j < i ==> s[j] != c,
    ensures
        split_once(s, c) == Some((s.take(i), s.skip(i + 1))),
    decreases i,
{
    if i > 0 {
        split_once_found(s.drop_first(), c, i - 1);
        assert(seq![s[0]] + s.drop_first().take(i - 1) =~= s.take(i));
        assert(s.drop_first().skip(i) =~= s.skip(i + 1));
    } else {
        assert(s.drop_first() =~= s.skip(1));
        assert(s.take(0) =~= Seq::<char>::empty());
    }
}

proof fn split_once_absent(s: Seq<char>, c: char)
    requires
        forall|j: int| 0 <= j < s.len() ==> s[j] != c,
    ensures
        split_once(s, c) is None,
    decreases s.len(),
{
    if s.len() > 0 {
        split_once_absent(s.drop_first(), c);
    }
}

/// `s` cut at its first `c`.
pub fn split_once_char(s: &str, c: char) -> (res: Option<(String, String)>)
    ensures
        match res {
            Some((a, b)) => split_once(s@, c) == Some((a@, b@)),
            None => split_once(s@, c) is None,
        },
{
    let cs = chars_of(s);
    match find_char(&cs, 0, cs.len(), c) {
        Some(i) => {
            proof {
                split_once_found(cs@, c, i as int);
                assert(cs@.take(i as int) =~= cs@.subrange(0, i as int));
                assert(cs@.skip(i + 1) =~= cs@.subrange(i + 1, cs@.len() as int));
            }
            Some((string_from_chars(&cs, 0, i), string_from_chars(&cs, i + 1, cs.len())))
        },
        None => {
            proof {
                split_once_absent(cs@, c);
            }
            None
        },
    }
}

/// The pieces of `s` between the occurrences of `sep`.
pub fn split_str(s: &str, sep: char) -> (res: Vec<String>)
    ensures
        views(res@) == split_on(s@, sep),
{
    let cs = chars_of(s);
    let mut pieces: Vec<String> = Vec::new();
    let mut cur = String::new();
    let mut i: usize = 0;
    assert(cs@.take(0) =~= Seq::<char>::empty());
    assert(views(pieces@).push(cur@) =~= split_on(cs@.take(0), sep));
    while i < cs.len()
        invariant
            i <= cs@.len(),
            cs@ == s@,
            views(pieces@).push(cur@) == split_on(cs@.take(i as int), sep),
        decreases cs@.len() - i,
    {
        let c = cs[i];
        assert(cs@.take(i + 1).drop_last() =~= cs@.take(i as int));
        assert(cs@.take(i + 1).last() == c);
        if c == sep {
            pieces.push(cur);
            cur = String::new();
            assert(views(pieces@).push(cur@) =~= split_on(cs@.take(i + 1), sep));
        } else {
            let ghost before = cur@;
            push_char(&mut cur, c);
            assert(views(pieces@).push(cur@) =~= split_on(cs@.take(i + 1), sep));
        }
        i = i + 1;
    }
    assert(cs@.take(cs@.len() as int) =~= cs@);
    pieces.push(cur);
    pieces
}

/// `s` percent-decoded, or `s` itself where that fails.
pub fn decode_or_raw(s: &str) -> (res: String)
    ensures
        res@ == decoded_or_raw(s@),
{
    match url_decode(s) {
        Some(d) => d,
        None => own(s),
    }
}

/// The parameters of the query pieces.
pub fn params_of(pieces: &Vec<String>) -> (res: Vec<Pair>)
    ensures
        pairs_view(res@) == query_params(views(pieces@)),
{
    let mut res: Vec<Pair> = Vec::new();
    let mut i: usize = 0;
    while i < pieces.len()
        invariant
            i <= pieces@.len(),
            pairs_view(res@) == query_params(views(pieces@).take(i as int)),
        decreases pieces@.len() - i,
    {
        assert(views(pieces@).take(i + 1).drop_last() =~= views(pieces@).take(i as int));
        assert(views(pieces@).take(i + 1).last() == pieces@[i as int]@);
        match split_once_char(pieces[i].as_str(), '=') {
            Some((k, v)) => {
                let p = Pair { name: decode_or_raw(k.as_str()), value: decode_or_raw(v.as_str()) };
                res.push(p);
                assert(pairs_view(res@) =~= query_params(views(pieces@).take(i + 1)));
            },
            None => {},
        }
        i = i + 1;
    }
    assert(views(pieces@).take(pieces@.len() as int) =~= views(pieces@));
    res
}

/// The value of the last parameter named `key`.
pub fn param_value(params: &Vec<Pair>, key: &str) -> (res: Option<String>)
    ensures
        match res {
            Some(v) => param(pairs_view(params@), key@) == Some(v@),
            None => param(pairs_view(params@), key@) is None,
        },
{
    let k = own(key);
    let mut i = params.len();
    assert(pairs_view(params@).take(i as int) =~= pairs_view(params@));
    while i > 0
        invariant
            i <= params@.len(),
            k@ == key@,
            param(pairs_view(params@), key@) == param(pairs_view(params@).take(i as int), key@),
        decreases i,
    {
        let ghost t = pairs_view(params@).take(i as int);
        assert(t.last() == (params@[i - 1].name@, params@[i - 1].value@));
        if params[i - 1].name == k {
            return Some(params[i - 1].value.clone());
        }
        assert(t.drop_last() =~= pairs_view(params@).take(i - 1));
        i = i - 1;
    }
    None
}

/// The query parameters of a request target.
pub fn target_params_of(target: &str) -> (res: Vec<Pair>)
    ensures
        pairs_view(res@) == target_params(target@),
{
    let query = match split_once_char(target, '?') {
        Some((_, q)) => q,
        None => String::new(),
    };
    let pieces = split_str(query.as_str(), '&');
    params_of(&pieces)
}

/// The page the callback server answers with, and its status line.
#[derive(Debug, Clone)]
pub struct CallbackReply {
    pub status: String,
    pub body: String,
}

/// What the login makes of the one request that reaches its callback
/// server: the page to answer with, if any, and the authorization code or
/// the reason the login failed.
#[derive(Debug)]
pub struct CallbackOutcome {
    pub reply: Option<CallbackReply>,
    pub result: Result<String, CliError>,
}

/// The page shown when the identity provider reports an error.
pub open spec fn error_page(desc: Seq<char>) -> Seq<char> {
    "<html><body><h1>Login Failed</h1><p>"@ + desc
        + "</p><p>You can close this tab.</p></body></html>"@
}

/// The page shown when the returned state is not the one sent.
pub open spec fn mismatch_page() -> Seq<char> {
    "<html><body><h1>Login Failed</h1><p>State mismatch (possible CSRF). Please try again.</p></body></html>"@
}

/// The page shown when the login went through.
pub open spec fn success_page() -> Seq<char> {
    "<html><body><h1>Login Successful</h1><p>You can close this tab and return to the terminal.</p></body></html>"@
}

/// What the callback request line `line` leads to, for the state that was
/// sent: the status and page of the answer, if one is sent, and the code or
/// the message of the failed login.
pub open spec fn callback_outcome(line: Seq<char>, expected_state: Seq<char>) -> (
    Option<(Seq<char>, Seq<char>)>,
    Result<Seq<char>, Seq<char>>,
) {
    match second_word(line) {
        None => (None, Err("Invalid callback request"@)),
        Some(target) => {
            let params = target_params(target);
            match param(params, "error"@) {
                Some(error) => {
                    let desc = match param(params, "error_description"@) {
                        Some(d) => d,
                        None => "Unknown error"@,
                    };
                    (Some(("400 Bad Request"@, error_page(desc))), Err(error + ": "@ + desc))
                },
                None => match param(params, "state"@) {
                    None => (None, Err("Missing state parameter in callback"@)),
                    Some(state) => if state != expected_state {
                        (
                            Some(("400 Bad Request"@, mismatch_page())),
                            Err("State parameter mismatch — possible CSRF attack"@),
                        )
                    } else {
                        match param(params, "code"@) {
                            None => (None, Err("Missing authorization code in callback"@)),
                            Some(code) => (Some(("200 OK"@, success_page())), Ok(code)),
                        }
                    },
                },
            }
        },
    }
}

/// `o` is the outcome that `callback_outcome` describes.
pub open spec fn outcome_is(
    o: CallbackOutcome,
    spec: (Option<(Seq<char>, Seq<char>)>, Result<Seq<char>, Seq<char>>),
) -> bool {
    &&& match (o.reply, spec.0) {
        (None, None) => true,
        (Some(r), Some((status, body))) => r.status@ == status && r.body@ == body,
        _ => false,
    }
    &&& match (o.result, spec.1) {
        (Ok(code), Ok(c)) => code@ == c,
        (Err(CliError::LoginFailed { message }), Err(m)) => message@ == m,
        _ => false,
    }
}

fn login_failed(message: String) -> (e: CliError)
    ensures
        e == (CliError::LoginFailed { message }),
{
    CliError::LoginFailed { message }
}

fn reply(status: &str, body: String) -> (r: Option<CallbackReply>)
    ensures
        r matches Some(rr) && rr.status@ == status@ && rr.body == body,
{
    Some(CallbackReply { status: own(status), body })
}

/// Reads the first line of the request that reached the callback server:
/// an error the identity provider reports, the state against the one sent,
/// then the authorization code.
pub fn parse_callback(line: &str, expected_state: &str) -> (res: CallbackOutcome)
    ensures
        outcome_is(res, callback_outcome(line@, expected_state@)),
{
    let target = match second_word_of(line) {
        Some(t) => t,
        None => {
            return CallbackOutcome {
                reply: None,
                result: Err(login_failed(String::from_str("Invalid callback request"))),
            };
        },
    };
    let params = target_params_of(target.as_str());
    if let Some(error) = param_value(&params, "error") {
        let desc = match param_value(&params, "error_description") {
            Some(d) => d,
            None => String::from_str("Unknown error"),
        };
        let mut page = String::from_str("<html><body><h1>Login Failed</h1><p>");
        page.append(desc.as_str());
        page.append("</p><p>You can close this tab.</p></body></html>");
        let mut message = error;
        message.append(": ");
        message.append(desc.as_str());
        return CallbackOutcome {
            reply: reply("400 Bad Request", page),
            result: Err(login_failed(message)),
        };
    }
    let state = match param_value(&params, "state") {
        Some(s) => s,
        None => {
            return CallbackOutcome {
                reply: None,
                result: Err(login_failed(String::from_str("Missing state parameter in callback"))),
            };
        },
    };
    if state != own(expected_state) {
        return CallbackOutcome {
            reply: reply(
                "400 Bad Request",
                String::from_str(
                    "<html><body><h1>Login Failed</h1><p>State mismatch (possible CSRF). Please try again.</p></body></html>",
                ),
            ),
            result: Err(
                login_failed(String::from_str("State parameter mismatch — possible CSRF attack")),
            ),
        };
    }
    match param_value(&params, "code") {
        None => CallbackOutcome {
            reply: None,
            result: Err(login_failed(String::from_str("Missing authorization code in callback"))),
        },
        Some(code) => CallbackOutcome {
            reply: reply(
                "200 OK",
                String::from_str(
                    "<html><body><h1>Login Successful</h1><p>You can close this tab and return to the terminal.</p></body></html>",
                ),
            ),
            result: Ok(code),
        },
    }
}

/// The login only ever takes a code from a callback that returned the state
/// it sent, and that reported no error.
pub proof fn callback_code_needs_state(line: Seq<char>, expected_state: Seq<char>)
    requires
        callback_outcome(line, expected_state).1 is Ok,
    ensures
        second_word(line) is Some,
        param(target_params(second_word(line)->0), "error"@) is None,
        param(target_params(second_word(line)->0), "state"@) == Some(expected_state),
        param(target_params(second_word(line)->0), "code"@) == Some(
            callback_outcome(line, expected_state).1->Ok_0,
        ),
{
}

/// The text of a minimal HTTP response with this status line and HTML body.
pub open spec fn http_response_text(status: Seq<char>, body: Seq<char>) -> Seq<char> {
    "HTTP/1.1 "@ + status + "\r\nContent-Type: text/html; charset=utf-8\r\nContent-Length: "@
        + decimal(vstd::utf8::encode_utf8(body).len()) + "\r\nConnection: close\r\n\r\n"@ + body
}

/// A minimal HTTP response: status line, HTML content type, the body's
/// length in bytes, `Connection: close`, then the body.
pub fn http_response(status: &str, body: &str) -> (res: String)
    requires
        vstd::utf8::encode_utf8(body@).len() <= usize::MAX,
    ensures
        res@ == http_response_text(status@, body@),
{
    let mut s = String::from_str("HTTP/1.1 ");
    s.append(status);
    s.append("\r\nContent-Type: text/html; charset=utf-8\r\nContent-Length: ");
    push_decimal(&mut s, body.len() as u64);
    s.append("\r\nConnection: close\r\n\r\n");
    s.append(body);
    assert(s@ =~= http_response_text(status@, body@));
    s
}

// ============================================================================
// Answers of the token endpoint
// ============================================================================

/// The tokens the token endpoint grants.
#[derive(Debug, Clone)]
pub struct TokenResponse {
    pub access_token: String,
    pub refresh_token: Option<String>,
    /// Seconds until the access token expires.
    pub expires_in: Option<i64>,
}

/// How the token endpoint answered a request.
#[derive(Debug, Clone)]
pub enum TokenReply {
    /// The request could not be sent; the transport's description.
    SendFailed(String),
    /// The endpoint refused; the `error_description` of its answer, where the
    /// answer holds one.
    Rejected(Option<String>),
    /// The endpoint agreed but its answer is no token response; the reader's
    /// description.
    Unreadable(String),
    /// The endpoint granted these tokens.
    Granted(TokenResponse),
}

/// The expiry time of a token granted at `now` that lives `expires_in`
/// seconds.
pub open spec fn expiry_from(now: i64, expires_in: Option<i64>) -> Option<int> {
    match expires_in {
        Some(secs) => Some(now + secs),
        None => None,
    }
}

/// A token granted at `now` for `secs` seconds expires `secs` seconds after
/// `now`, so one that lives longer than the thirty-second margin is not yet
/// expired when it arrives; a grant without a lifetime never expires.
pub proof fn granted_tokens_expire_after_their_lifetime(now: i64, secs: i64)
    requires
        i64::MIN <= now + secs <= i64::MAX,
    ensures
        expiry_from(now, Some(secs)) == Some(now + secs),
        expiry_from(now, None) is None,
        secs > 30 ==> !expired_at(Some((now + secs) as i64), now),
        expired_at(Some((now + secs) as i64), (now + secs) as i64),
{
}

/// The expiry time fits an `i64`.
pub open spec fn expiry_fits(now: i64, reply: TokenReply) -> bool {
    reply matches TokenReply::Granted(r) && r.expires_in matches Some(secs) ==> i64::MIN <= now
        + secs <= i64::MAX
}

/// The message of a login or refresh that the token endpoint did not grant:
/// `None` when it granted tokens.
pub open spec fn token_failure(reply: TokenReply, refreshing: bool) -> Option<Seq<char>> {
    match reply {
        TokenReply::SendFailed(e) => Some(
            (if refreshing {
                "Refresh request failed: "@
            } else {
                "Token exchange request failed: "@
            }) + e@,
        ),
        TokenReply::Rejected(desc) => Some(
            match desc {
                Some(d) => d@,
                None => if refreshing {
                    "Token refresh failed"@
                } else {
                    "Token exchange failed"@
                },
            },
        ),
        TokenReply::Unreadable(e) => Some(
            (if refreshing {
                "Failed to parse refresh response: "@
            } else {
                "Failed to parse token response: "@
            }) + e@,
        ),
        TokenReply::Granted(_) => None,
    }
}

fn failure_text(reply: &TokenReply, refreshing: bool) -> (m: String)
    requires
        !(reply is Granted),
    ensures
        token_failure(*reply, refreshing) == Some(m@),
{
    match reply {
        TokenReply::SendFailed(e) => {
            let mut m = String::from_str(
                if refreshing {
                    "Refresh request failed: "
                } else {
                    "Token exchange request failed: "
                },
            );
            m.append(e.as_str());
            m
        },
        TokenReply::Rejected(desc) => match desc {
            Some(d) => d.clone(),
            None => String::from_str(
                if refreshing {
                    "Token refresh failed"
                } else {
                    "Token exchange failed"
                },
            ),
        },
        TokenReply::Unreadable(e) => {
            let mut m = String::from_str(
                if refreshing {
                    "Failed to parse refresh response: "
                } else {
                    "Failed to parse token response: "
                },
            );
            m.append(e.as_str());
            m
        },
        TokenReply::Granted(_) => String::new(),
    }
}

fn expiry(now: i64, expires_in: Option<i64>) -> (res: Option<i64>)
    requires
        expires_in matches Some(secs) ==> i64::MIN <= now + secs <= i64::MAX,
    ensures
        match res {
            Some(t) => expiry_from(now, expires_in) == Some(t as int),
            None => expires_in is None,
        },
{
    match expires_in {
        Some(secs) => Some(now + secs),
        None => None,
    }
}

/// The tokens of a finished login, answered at the Unix time `now`, or why
/// the login failed.
pub fn login_tokens(
    reply: TokenReply,
    now: i64,
    api_url: &str,
    zitadel_domain: &str,
    client_id: &str,
) -> (res: Result<TokenStore, CliError>)
    requires
        expiry_fits(now, reply),
    ensures
        match token_failure(reply, false) {
            Some(m) => res matches Err(CliError::LoginFailed { message }) && message@ == m,
            None => res matches Ok(st) && reply matches TokenReply::Granted(r) && st.access_token
                == r.access_token && st.refresh_token == r.refresh_token && expiry_from(
                now,
                r.expires_in,
            ) == (match st.expires_at {
                Some(t) => Some(t as int),
                None => None,
            }) && st.api_url@ == api_url@ && st.zitadel_domain@ == zitadel_domain@
                && st.client_id@ == client_id@,
        },
{
    match reply {
        TokenReply::Granted(r) => Ok(
            TokenStore {
                access_token: r.access_token,
                refresh_token: r.refresh_token,
                expires_at: expiry(now, r.expires_in),
                api_url: own(api_url),
                zitadel_domain: own(zitadel_domain),
                client_id: own(client_id),
            },
        ),
        _ => Err(CliError::LoginFailed { message: failure_text(&reply, false) }),
    }
}

/// The store after a refresh answered at the Unix time `now`, or why the
/// refresh failed: a new access token, the new refresh token if one came and
/// the old one otherwise, and the rest of the old store.
pub fn refreshed_tokens(reply: TokenReply, now: i64, store: &TokenStore) -> (res: Result<
    TokenStore,
    CliError,
>)
    requires
        expiry_fits(now, reply),
    ensures
        match token_failure(reply, true) {
            Some(m) => res matches Err(CliError::TokenRefreshFailed { message }) && message@ == m,
            None => res matches Ok(st) && reply matches TokenReply::Granted(r) && st.access_token
                == r.access_token && st.refresh_token == (match r.refresh_token {
                Some(t) => Some(t),
                None => store.refresh_token,
            }) && expiry_from(now, r.expires_in) == (match st.expires_at {
                Some(t) => Some(t as int),
                None => None,
            }) && st.api_url == store.api_url && st.zitadel_domain == store.zitadel_domain
                && st.client_id == store.client_id,
        },
{
    match reply {
        TokenReply::Granted(r) => {
            let refresh_token = match r.refresh_token {
                Some(t) => Some(t),
                None => clone_opt(&store.refresh_token),
            };
            Ok(
                TokenStore {
                    access_token: r.access_token,
                    refresh_token,
                    expires_at: expiry(now, r.expires_in),
                    api_url: store.api_url.clone(),
                    zitadel_domain: store.zitadel_domain.clone(),
                    client_id: store.client_id.clone(),
                },
            )
        },
        _ => Err(CliError::TokenRefreshFailed { message: failure_text(&reply, true) }),
    }
}

// ============================================================================
// Where the tokens are kept
// ============================================================================

/// `name` below the directory `base`: a separator goes between them unless
/// `base` is empty or already ends in one.
pub open spec fn path_join(base: Seq<char>, name: Seq<char>) -> Seq<char> {
    if base.len() == 0 {
        name
    } else if base.last() == '/' {
        base + name
    } else {
        base + "/"@ + name
    }
}

/// `name` below the directory `base`.
pub fn join_path(base: &str, name: &str) -> (res: String)
    ensures
        res@ == path_join(base@, name@),
{
    let cs = chars_of(base);
    if cs.len() == 0 {
        own(name)
    } else if cs[cs.len() - 1] == '/' {
        concat2(base, name)
    } else {
        concat3(base, "/", name)
    }
}

/// The configuration directory: `$XDG_CONFIG_HOME`, or `.config` below
/// `$HOME` (below `.` without a home).
pub open spec fn config_dir(home: Option<Seq<char>>, xdg_config_home: Option<Seq<char>>) -> Seq<
    char,
> {
    match xdg_config_home {
        Some(x) => x,
        None => (match home {
            Some(h) => h,
            None => "."@,
        }) + "/.config"@,
    }
}

/// The token file: `seggwat/tokens.json` below the configuration directory.
pub open spec fn token_path_for(home: Option<Seq<char>>, xdg_config_home: Option<Seq<char>>) -> Seq<
    char,
> {
    path_join(path_join(config_dir(home, xdg_config_home), "seggwat"@), "tokens.json"@)
}

/// The token file for the values of `HOME` and `XDG_CONFIG_HOME`.
pub fn token_path_from(home: Option<&str>, xdg_config_home: Option<&str>) -> (res: String)
    ensures
        res@ == token_path_for(opt_view(home), opt_view(xdg_config_home)),
{
    let dir = match xdg_config_home {
        Some(x) => own(x),
        None => {
            let h = match home {
                Some(h) => h,
                None => ".",
            };
            concat2(h, "/.config")
        },
    };
    let app_dir = join_path(dir.as_str(), "seggwat");
    join_path(app_dir.as_str(), "tokens.json")
}

} // verus!
