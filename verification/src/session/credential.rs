//! Credentials, and where in a request they are found.
//!
//! A request is read through two plain views: its header lines and its
//! cookies. A credential that is not there is no error: the request goes on
//! without one.

use vstd::prelude::*;
use vstd::utf8::{encode_utf8, encode_utf8_decode_utf8};
use crate::api::response::text_of;

verus! {

/// Tells whether two texts are the same, character by character.
pub fn same_text(left: &str, right: &str) -> (same: bool)
    ensures
        same == (left@ == right@),
{
    let a = left.as_bytes();
    let b = right.as_bytes();
    if a.len() != b.len() {
        return false;
    }
    let mut i: usize = 0;
    while i < a.len()
        invariant
            a@ == encode_utf8(left@),
            b@ == encode_utf8(right@),
            a@.len() == b@.len(),
            i <= a@.len(),
            a@.subrange(0, i as int) == b@.subrange(0, i as int),
        decreases a@.len() - i,
    {
        if a[i] != b[i] {
            assert(a@[i as int] != b@[i as int]);
            return false;
        }
        assert(a@.subrange(0, i + 1) == a@.subrange(0, i as int).push(a@[i as int]));
        assert(b@.subrange(0, i + 1) == b@.subrange(0, i as int).push(b@[i as int]));
        i += 1;
    }
    proof {
        assert(a@ == a@.subrange(0, i as int));
        assert(b@ == b@.subrange(0, i as int));
        encode_utf8_decode_utf8(left@);
        encode_utf8_decode_utf8(right@);
    }
    true
}

/// The header that carries a bearer token.
pub const AUTHORIZATION: &'static str = "authorization";

/// What stands before the token in the value of the `authorization` header.
pub const BEARER_PREFIX: &'static str = "Bearer ";

/// The name of the cookie that carries a session token where the embedding
/// service names no other.
pub const SESSION_COOKIE: &'static str = "__Host-omn-sess";

/// One header line of a request. The name is in lower case; the value is
/// `None` where it is not visible ASCII text.
#[derive(Debug)]
pub struct RequestHeader {
    pub name: String,
    pub value: Option<String>,
}

/// The header lines of a request, in the order in which they came.
#[derive(Debug)]
pub struct RequestHead {
    pub headers: Vec<RequestHeader>,
}

/// One cookie of a request, its value as the client sent it.
#[derive(Debug)]
pub struct Cookie {
    pub name: String,
    pub value: String,
}

/// The cookies of a request.
#[derive(Debug)]
pub struct CookieJar {
    pub cookies: Vec<Cookie>,
}

/// A token as it came with a request, before anything is known of it.
#[derive(Clone, Debug)]
pub struct Credential(pub String);

impl View for Credential {
    type V = Seq<char>;

    open spec fn view(&self) -> Seq<char> {
        self.0@
    }
}

/// The text of an optional credential.
pub open spec fn credential_text(credential: Option<Credential>) -> Option<Seq<char>> {
    match credential {
        Some(c) => Some(c@),
        None => None,
    }
}

/// The value of the first header line with the given name; `None` where
/// there is no such line or its value is no text.
pub open spec fn header_text(headers: Seq<RequestHeader>, name: Seq<char>) -> Option<Seq<char>>
    decreases headers.len(),
{
    if headers.len() == 0 {
        None
    } else if headers[0].name@ == name {
        text_of(headers[0].value)
    } else {
        header_text(headers.drop_first(), name)
    }
}

/// The value of the first cookie with the given name, as the client sent it.
pub open spec fn cookie_text(cookies: Seq<Cookie>, name: Seq<char>) -> Option<Seq<char>>
    decreases cookies.len(),
{
    if cookies.len() == 0 {
        None
    } else if cookies[0].name@ == name {
        Some(cookies[0].value@)
    } else {
        cookie_text(cookies.drop_first(), name)
    }
}

/// A cookie value without the pair of double quotes that may surround it.
pub open spec fn unquoted(value: Seq<char>) -> Seq<char> {
    if value.len() >= 2 && value.first() == '"' && value.last() == '"' {
        value.subrange(1, value.len() - 1)
    } else {
        value
    }
}

/// The bearer token of a request: what follows `BEARER_PREFIX` in the value of
/// its `authorization` header.
pub open spec fn bearer_token(request: RequestHead) -> Option<Seq<char>> {
    match header_text(request.headers@, AUTHORIZATION@) {
        Some(value) if BEARER_PREFIX@.is_prefix_of(value) => Some(
            value.skip(BEARER_PREFIX@.len() as int),
        ),
        _ => None,
    }
}

/// The token that the cookie of the given name carries.
pub open spec fn cookie_token(cookie_name: Seq<char>, cookies: CookieJar) -> Option<Seq<char>> {
    match cookie_text(cookies.cookies@, cookie_name) {
        Some(value) => Some(unquoted(value)),
        None => None,
    }
}

/// Removes a prefix with `str::strip_prefix`, which the standard library
/// documents to return what follows the prefix where the text starts with it,
/// and `None` where it does not.
#[verifier::external_body]
fn strip_prefix<'a>(text: &'a str, prefix: &str) -> (rest: Option<&'a str>)
    ensures
        match rest {
            Some(r) => text@ == prefix@ + r@,
            None => !prefix@.is_prefix_of(text@),
        },
{
    text.strip_prefix(prefix)
}

/// Trims a cookie value with `Cookie::value_trimmed` of the cookie crate that
/// `axum_extra` hands on, on a cookie made by `Cookie::new` with this value.
///
/// The crate documents that a value of two or more bytes that starts and ends
/// with a double quote loses both, and that any other value stays as it is.
#[verifier::external_body]
fn value_trimmed(value: &str) -> (trimmed: String)
    ensures
        trimmed@ == unquoted(value@),
{
    axum_extra::extract::cookie::Cookie::new("", value).value_trimmed().to_owned()
}

impl RequestHead {
    /// The value of the first header line with the given name.
    pub fn header(&self, name: &str) -> (value: Option<&str>)
        ensures
            match value {
                Some(v) => header_text(self.headers@, name@) == Some(v@),
                None => header_text(self.headers@, name@) is None,
            },
    {
        let mut i: usize = 0;
        assert(self.headers@.skip(0) == self.headers@);
        while i < self.headers.len()
            invariant
                i <= self.headers@.len(),
                header_text(self.headers@, name@) == header_text(
                    self.headers@.skip(i as int),
                    name@,
                ),
            decreases self.headers@.len() - i,
        {
            let line = &self.headers[i];
            assert(self.headers@.skip(i as int)[0] == self.headers@[i as int]);
            if same_text(line.name.as_str(), name) {
                return match &line.value {
                    Some(v) => Some(v.as_str()),
                    None => None,
                };
            }
            assert(self.headers@.skip(i as int).drop_first() == self.headers@.skip(i + 1));
            i += 1;
        }
        None
    }
}

impl CookieJar {
    /// The value of the first cookie with the given name.
    pub fn get(&self, name: &str) -> (value: Option<&str>)
        ensures
            match value {
                Some(v) => cookie_text(self.cookies@, name@) == Some(v@),
                None => cookie_text(self.cookies@, name@) is None,
            },
    {
        let mut i: usize = 0;
        assert(self.cookies@.skip(0) == self.cookies@);
        while i < self.cookies.len()
            invariant
                i <= self.cookies@.len(),
                cookie_text(self.cookies@, name@) == cookie_text(
                    self.cookies@.skip(i as int),
                    name@,
                ),
            decreases self.cookies@.len() - i,
        {
            let cookie = &self.cookies[i];
            assert(self.cookies@.skip(i as int)[0] == self.cookies@[i as int]);
            if same_text(cookie.name.as_str(), name) {
                return Some(cookie.value.as_str());
            }
            assert(self.cookies@.skip(i as int).drop_first() == self.cookies@.skip(i + 1));
            i += 1;
        }
        None
    }
}

impl Credential {
    /// The bearer token of the request, as a credential. A request without an
    /// `authorization` header, or with one whose value does not start with
    /// `BEARER_PREFIX`, carries none.
    pub fn from_authorization_header(request: &RequestHead) -> (credential: Option<Credential>)
        ensures
            credential_text(credential) == bearer_token(*request),
    {
        match request.header(AUTHORIZATION) {
            Some(value) => match strip_prefix(value, BEARER_PREFIX) {
                Some(token) => {
                    assert(token@ == value@.skip(BEARER_PREFIX@.len() as int));
                    assert(BEARER_PREFIX@.is_prefix_of(value@));
                    Some(Credential(token.to_owned()))
                },
                None => None,
            },
            None => None,
        }
    }

    /// The token that the cookie of the given name carries, as a credential.
    /// A jar without such a cookie carries none.
    pub fn from_cookie(cookie_name: &str, cookies: &CookieJar) -> (credential: Option<Credential>)
        ensures
            credential_text(credential) == cookie_token(cookie_name@, *cookies),
    {
        match cookies.get(cookie_name) {
            Some(value) => Some(Credential(value_trimmed(value))),
            None => None,
        }
    }
}

/// The credential of a request that carries it in the cookie of the given
/// name or, without that cookie, as the whole value of its `authorization`
/// header, with no prefix before it. The cookie comes first.
pub fn cookie_or_header(
    cookie_name: &str,
    request: &RequestHead,
    cookies: &CookieJar,
) -> (credential: Option<Credential>)
    ensures
        credential_text(credential) == (match cookie_token(cookie_name@, *cookies) {
            Some(t) => Some(t),
            None => header_text(request.headers@, AUTHORIZATION@),
        }),
{
    match Credential::from_cookie(cookie_name, cookies) {
        Some(credential) => Some(credential),
        None => match request.header(AUTHORIZATION) {
            Some(value) => Some(Credential(value.to_owned())),
            None => None,
        },
    }
}

/// A place in a request where a credential may stand.
#[derive(Debug)]
pub enum CredentialSource {
    /// The bearer token of the `authorization` header.
    AuthorizationHeader,
    /// The cookie of the given name.
    Cookie(String),
}

/// The token that a source yields for a request.
pub open spec fn credential_at(
    source: CredentialSource,
    request: RequestHead,
    cookies: CookieJar,
) -> Option<Seq<char>> {
    match source {
        CredentialSource::AuthorizationHeader => bearer_token(request),
        CredentialSource::Cookie(name) => cookie_token(name@, cookies),
    }
}

/// The token of the first source, in the order given, that yields one.
pub open spec fn first_credential(
    sources: Seq<CredentialSource>,
    request: RequestHead,
    cookies: CookieJar,
) -> Option<Seq<char>>
    decreases sources.len(),
{
    if sources.len() == 0 {
        None
    } else {
        match credential_at(sources[0], request, cookies) {
            Some(token) => Some(token),
            None => first_credential(sources.drop_first(), request, cookies),
        }
    }
}

impl CredentialSource {
    /// The credential that this source yields for a request.
    pub fn extract(&self, request: &RequestHead, cookies: &CookieJar) -> (credential: Option<
        Credential,
    >)
        ensures
            credential_text(credential) == credential_at(*self, *request, *cookies),
    {
        match self {
            CredentialSource::AuthorizationHeader => Credential::from_authorization_header(request),
            CredentialSource::Cookie(name) => Credential::from_cookie(name.as_str(), cookies),
        }
    }
}

/// Extracts the credential of a request from the first of `sources` that
/// yields one. The order of the sources is the order of precedence.
pub fn extract_credential(
    sources: &[CredentialSource],
    request: &RequestHead,
    cookies: &CookieJar,
) -> (credential: Option<Credential>)
    ensures
        credential_text(credential) == first_credential(sources@, *request, *cookies),
{
    let mut i: usize = 0;
    assert(sources@.skip(0) == sources@);
    while i < sources.len()
        invariant
            i <= sources@.len(),
            first_credential(sources@, *request, *cookies) == first_credential(
                sources@.skip(i as int),
                *request,
                *cookies,
            ),
        decreases sources@.len() - i,
    {
        assert(sources@.skip(i as int)[0] == sources@[i as int]);
        let found = sources[i].extract(request, cookies);
        if found.is_some() {
            return found;
        }
        assert(sources@.skip(i as int).drop_first() == sources@.skip(i + 1));
        i += 1;
    }
    None
}

/// The first match wins: where a source yields a token and no source before
/// it does, that token is the credential, whatever the later sources hold.
pub proof fn lemma_first_match_wins(
    sources: Seq<CredentialSource>,
    request: RequestHead,
    cookies: CookieJar,
    at: int,
)
    requires
        0 <= at < sources.len(),
        credential_at(sources[at], request, cookies) is Some,
        forall|j: int|
            0 <= j < at ==> credential_at(#[trigger] sources[j], request, cookies) is None,
    ensures
        first_credential(sources, request, cookies) == credential_at(sources[at], request, cookies),
    decreases at,
{
    if at > 0 {
        let rest = sources.drop_first();
        assert(credential_at(sources[0], request, cookies) is None);
        assert(rest[at - 1] == sources[at]);
        assert forall|j: int| 0 <= j < at - 1 implies credential_at(
            #[trigger] rest[j],
            request,
            cookies,
        ) is None by {
            assert(rest[j] == sources[j + 1]);
        }
        lemma_first_match_wins(rest, request, cookies, at - 1);
    }
}

/// No source, no credential: where none of the sources yields a token, the
/// request carries no credential.
pub proof fn lemma_no_match_no_credential(
    sources: Seq<CredentialSource>,
    request: RequestHead,
    cookies: CookieJar,
)
    requires
        forall|j: int| 0 <= j < sources.len() ==> credential_at(
            #[trigger] sources[j],
            request,
            cookies,
        ) is None,
    ensures
        first_credential(sources, request, cookies) is None,
    decreases sources.len(),
{
    if sources.len() > 0 {
        let rest = sources.drop_first();
        assert(credential_at(sources[0], request, cookies) is None);
        assert forall|j: int| 0 <= j < rest.len() implies credential_at(
            #[trigger] rest[j],
            request,
            cookies,
        ) is None by {
            assert(rest[j] == sources[j + 1]);
        }
        lemma_no_match_no_credential(rest, request, cookies);
    }
}

} // verus!
