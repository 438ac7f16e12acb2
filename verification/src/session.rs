//! Session credentials: how a token is made, under which key it is kept,
//! and how it is read from a request.
//!
//! A session is no stored record. It is a random 256-bit token, written in
//! base64, that the credential store maps to a user's identifier for a
//! limited time. While that entry lives the session is live; otherwise it
//! is absent. There is no third state.

use vstd::prelude::*;
use vstd::string::*;
use vstd::utf8::encode_utf8;
use crate::text::{same_text, text_of};
use base64::Engine;
use rand::RngCore;

verus! {

/// How long a session lives where nothing else is configured: 14 days, in
/// seconds.
pub const DEFAULT_SESSION_EXPIRATION: u64 = 1_209_600;

/// The name of the header and of the cookie that carry the credential.
pub open spec fn authorization_name() -> Seq<char> {
    "Authorization"@
}

/// The key under which the credential store keeps a token's session.
pub open spec fn session_key(token: Seq<char>) -> Seq<char> {
    token + ":session"@
}

/// The key under which the credential store keeps a token's session.
pub fn _session_key(token: &str) -> (key: String)
    ensures
        key@ == session_key(token@),
{
    String::from_str(token).concat(":session")
}

/// Two tokens share a key only if they are the same token.
pub proof fn session_key_injective(first: Seq<char>, second: Seq<char>)
    requires
        session_key(first) == session_key(second),
    ensures
        first == second,
{
    let suffix = ":session"@;
    let left = first + suffix;
    let right = second + suffix;
    assert(left == right);
    assert(left.len() == first.len() + suffix.len());
    assert(right.len() == second.len() + suffix.len());
    assert(first =~= left.subrange(0, first.len() as int));
    assert(second =~= right.subrange(0, second.len() as int));
}

/// The token that a credential carries: what follows the prefix
/// `"Bearer "`. A credential without that prefix carries none.
pub open spec fn bearer_token(credential: Seq<char>) -> Option<Seq<char>> {
    if credential.len() >= 7 && credential.subrange(0, 7) == "Bearer "@ {
        Some(credential.skip(7))
    } else {
        None
    }
}

/// The credential of a request: the `Authorization` header where the
/// request has one, else the `Authorization` cookie.
pub open spec fn credential_of(
    header: Option<Seq<char>>,
    cookie: Option<Seq<char>>,
) -> Option<Seq<char>> {
    if header is Some {
        header
    } else {
        cookie
    }
}

/// The token that a request presents, if it presents one.
pub open spec fn presented_token(
    header: Option<Seq<char>>,
    cookie: Option<Seq<char>>,
) -> Option<Seq<char>> {
    match credential_of(header, cookie) {
        Some(credential) => bearer_token(credential),
        None => None,
    }
}

/// The credential `"Bearer "` followed by the token.
pub open spec fn bearer_credential(token: Seq<char>) -> Seq<char> {
    "Bearer "@ + token
}

/// Reading a credential made from a token gives the token back.
pub proof fn bearer_round_trip(token: Seq<char>)
    ensures
        bearer_token(bearer_credential(token)) == Some(token),
{
    reveal_strlit("Bearer ");
    let credential = bearer_credential(token);
    assert(credential.subrange(0, 7) =~= "Bearer "@);
    assert(credential.skip(7) =~= token);
}

/// Strips the prefix `"Bearer "` from a credential.
pub fn strip_bearer(credential: &str) -> (token: Option<String>)
    ensures
        match token {
            Some(text) => bearer_token(credential@) == Some(text@),
            None => bearer_token(credential@) is None,
        },
{
    let length = credential.unicode_len();
    if length < 7 {
        return None;
    }
    if same_text(credential.substring_char(0, 7), "Bearer ") {
        Some(String::from_str(credential.substring_char(7, length)))
    } else {
        None
    }
}

/// Reads the token that a request presents. The header takes precedence
/// over the cookie, also where the header carries no token.
pub fn extract_token(header: Option<&str>, cookie: Option<&str>) -> (token: Option<String>)
    ensures
        match token {
            Some(text) => presented_token(text_of(header), text_of(cookie)) == Some(text@),
            None => presented_token(text_of(header), text_of(cookie)) is None,
        },
{
    match header {
        Some(value) => strip_bearer(value),
        None => match cookie {
            Some(value) => strip_bearer(value),
            None => None,
        },
    }
}

/// Base64 with the standard alphabet and padding, as text.
pub uninterp spec fn base64_standard(bytes: Seq<u8>) -> Seq<char>;

/// `encode` of `base64::engine::general_purpose::STANDARD`. The contract
/// names the text that it returns.
#[verifier::external_body]
fn encode_base64(bytes: &[u8; 32]) -> (text: String)
    ensures
        text@ == base64_standard(bytes@),
{
    base64::engine::general_purpose::STANDARD.encode(bytes)
}

/// `fill_bytes` of `rand::thread_rng()`. Nothing is claimed of the bytes
/// but their number, which the type gives.
#[verifier::external_body]
fn random_bytes() -> (bytes: [u8; 32]) {
    let mut bytes = [0u8; 32];
    rand::thread_rng().fill_bytes(&mut bytes);
    bytes
}

/// The token made from 32 bytes of entropy.
pub open spec fn token_text(entropy: Seq<u8>) -> Seq<char> {
    base64_standard(entropy)
}

/// Writes 32 bytes of entropy as a token.
pub fn token_from_entropy(entropy: &[u8; 32]) -> (token: String)
    ensures
        token@ == token_text(entropy@),
{
    encode_base64(entropy)
}

/// Makes a fresh token from 32 random bytes.
pub fn new_session_token() -> (token: String)
    ensures
        exists|entropy: Seq<u8>| entropy.len() == 32 && token@ == #[trigger] token_text(entropy),
{
    let entropy = random_bytes();
    token_from_entropy(&entropy)
}

/// Whether a byte stands for itself in a percent-encoded text: an ASCII
/// letter or digit, or one of `-`, `.`, `_`, `~`.
pub open spec fn is_unreserved(byte: u8) -> bool {
    ||| 0x30 <= byte <= 0x39
    ||| 0x41 <= byte <= 0x5a
    ||| 0x61 <= byte <= 0x7a
    ||| byte == 0x2d
    ||| byte == 0x2e
    ||| byte == 0x5f
    ||| byte == 0x7e
}

/// The upper-case hexadecimal digit of a value below 16.
pub open spec fn hex_digit(nibble: u8) -> char {
    if nibble < 10 {
        (0x30 + nibble) as char
    } else {
        (0x37 + nibble) as char
    }
}

/// The percent-encoding of a sequence of bytes: each unreserved byte as
/// itself, each other byte as `%` and its two hexadecimal digits.
pub open spec fn percent_encoded(bytes: Seq<u8>) -> Seq<char>
    decreases bytes.len(),
{
    if bytes.len() == 0 {
        Seq::empty()
    } else {
        let first = bytes[0];
        let head = if is_unreserved(first) {
            seq![first as char]
        } else {
            seq!['%', hex_digit(first / 16), hex_digit(first % 16)]
        };
        head + percent_encoded(bytes.drop_first())
    }
}

/// `urlencoding::encode`, which percent-encodes every byte of the text's
/// UTF-8 form except ASCII letters, digits and `-`, `.`, `_`, `~`, with
/// upper-case hexadecimal digits.
#[verifier::external_body]
fn percent_encode(text: &str) -> (encoded: String)
    ensures
        encoded@ == percent_encoded(encode_utf8(text@)),
{
    urlencoding::encode(text).into_owned()
}

/// A cookie to be set on a response.
#[derive(Debug)]
pub struct Cookie {
    pub name: String,
    pub value: String,
    pub http_only: bool,
}

pub struct CookieView {
    pub name: Seq<char>,
    pub value: Seq<char>,
    pub http_only: bool,
}

impl View for Cookie {
    type V = CookieView;

    open spec fn view(&self) -> CookieView {
        CookieView { name: self.name@, value: self.value@, http_only: self.http_only }
    }
}

impl Clone for Cookie {
    fn clone(&self) -> (copy: Self)
        ensures
            copy == *self,
    {
        Cookie { name: self.name.clone(), value: self.value.clone(), http_only: self.http_only }
    }
}

/// The cookie that carries a session: named `Authorization`, holding the
/// percent-encoded bearer credential, and hidden from scripts.
pub open spec fn session_cookie_for(token: Seq<char>) -> CookieView {
    CookieView {
        name: authorization_name(),
        value: percent_encoded(encode_utf8(bearer_credential(token))),
        http_only: true,
    }
}

/// Builds the cookie that carries a session.
pub fn session_cookie(token: &str) -> (cookie: Cookie)
    ensures
        cookie@ == session_cookie_for(token@),
{
    let credential = String::from_str("Bearer ").concat(token);
    Cookie {
        name: String::from_str("Authorization"),
        value: percent_encode(credential.as_str()),
        http_only: true,
    }
}

/// What a successful login hands out.
#[derive(Debug)]
pub struct SessionResponse {
    pub token: String,
    pub cookie: Cookie,
}

pub struct SessionResponseView {
    pub token: Seq<char>,
    pub cookie: CookieView,
}

impl View for SessionResponse {
    type V = SessionResponseView;

    open spec fn view(&self) -> SessionResponseView {
        SessionResponseView { token: self.token@, cookie: self.cookie@ }
    }
}

impl Clone for SessionResponse {
    fn clone(&self) -> (copy: Self)
        ensures
            copy == *self,
    {
        SessionResponse { token: self.token.clone(), cookie: self.cookie.clone() }
    }
}

/// What a login with the given token hands out.
pub open spec fn session_response_for(token: Seq<char>) -> SessionResponseView {
    SessionResponseView { token, cookie: session_cookie_for(token) }
}

/// Builds what a login with the given token hands out.
pub fn session_response(token: &str) -> (response: SessionResponse)
    ensures
        response@ == session_response_for(token@),
{
    SessionResponse { token: String::from_str(token), cookie: session_cookie(token) }
}

} // verus!
