//! A JSON answer: a status code, headers and a body, and the status body that
//! answers carry when they report nothing but their status.

use vstd::prelude::*;

verus! {

/// The status code of an answer that succeeded.
pub const OK: u16 = 200;

/// The status code of an answer to a request that lacks valid credentials.
pub const UNAUTHORIZED: u16 = 401;

/// The status code of an answer to a request that the server failed to serve.
pub const INTERNAL_SERVER_ERROR: u16 = 500;

/// The reason phrase that the table of status codes holds for `code`, or
/// `None` where the code is no status code or has no phrase.
pub uninterp spec fn reason_phrase(code: u16) -> Option<Seq<char>>;

/// The reason phrase of a status code. The phrases of the three codes that
/// this crate's own answers use are written out; the others are whatever the
/// table of status codes holds.
pub open spec fn reason_of(code: u16) -> Option<Seq<char>> {
    if code == OK {
        Some("OK"@)
    } else if code == UNAUTHORIZED {
        Some("Unauthorized"@)
    } else if code == INTERNAL_SERVER_ERROR {
        Some("Internal Server Error"@)
    } else {
        reason_phrase(code)
    }
}

/// The text of an optional string.
pub open spec fn text_of(text: Option<String>) -> Option<Seq<char>> {
    match text {
        Some(t) => Some(t@),
        None => None,
    }
}

/// Looks a reason phrase up with `hyper::StatusCode::from_u16` and
/// `StatusCode::canonical_reason`.
///
/// The phrase is a function of the code. Of the table behind it, the contract
/// records the three rows that this crate's own answers use.
#[verifier::external_body]
fn canonical_reason(code: u16) -> (reason: Option<String>)
    ensures
        text_of(reason) == reason_phrase(code),
        code == OK ==> text_of(reason) == Some("OK"@),
        code == UNAUTHORIZED ==> text_of(reason) == Some("Unauthorized"@),
        code == INTERNAL_SERVER_ERROR ==> text_of(reason) == Some("Internal Server Error"@),
{
    match hyper::StatusCode::from_u16(code) {
        Ok(status) => status.canonical_reason().map(String::from),
        Err(_) => None,
    }
}

/// The body of an answer that reports a status: the reason phrase of the
/// status code, and a detail for the human reader where one is meant to be
/// shown.
#[derive(Debug)]
pub struct JsonStatus {
    pub reason: Option<String>,
    pub detail: Option<String>,
}

impl JsonStatus {
    /// Says that the body reports `code` with the given detail.
    pub open spec fn reports(&self, code: u16, detail: Option<Seq<char>>) -> bool {
        text_of(self.reason) == reason_of(code) && text_of(self.detail) == detail
    }

    /// The status body for `code`, with the given detail.
    pub fn of(code: u16, detail: Option<String>) -> (status: JsonStatus)
        ensures
            status.reports(code, text_of(detail)),
            status.detail == detail,
    {
        JsonStatus { reason: canonical_reason(code), detail }
    }
}

/// One header of an answer.
#[derive(Debug)]
pub struct Header {
    pub name: String,
    pub value: String,
}

/// An answer with a JSON body.
#[derive(Debug)]
pub struct JsonResponse<T> {
    pub headers: Vec<Header>,
    pub code: u16,
    pub body: T,
}

impl<T> JsonResponse<T> {
    /// An answer with status `OK`, no headers and the given body.
    pub fn of(body: T) -> (response: JsonResponse<T>)
        ensures
            response.headers@ == Seq::<Header>::empty(),
            response.code == OK,
            response.body == body,
    {
        JsonResponse { headers: Vec::new(), code: OK, body }
    }

    /// An answer with status `OK`, no headers and the given body.
    pub fn of_json(body: T) -> (response: JsonResponse<T>)
        ensures
            response.headers@ == Seq::<Header>::empty(),
            response.code == OK,
            response.body == body,
    {
        JsonResponse::of(body)
    }

    /// The same answer under another status code.
    pub fn with_status(self, code: u16) -> (response: JsonResponse<T>)
        ensures
            response.headers == self.headers,
            response.code == code,
            response.body == self.body,
    {
        let mut response = self;
        response.code = code;
        response
    }

    /// The same answer with its headers replaced.
    pub fn with_headers(self, headers: Vec<Header>) -> (response: JsonResponse<T>)
        ensures
            response.headers == headers,
            response.code == self.code,
            response.body == self.body,
    {
        let mut response = self;
        response.headers = headers;
        response
    }

    /// The same answer with one more header after those it has.
    pub fn append_header(self, key: String, value: String) -> (response: JsonResponse<T>)
        ensures
            response.headers@ == self.headers@.push(Header { name: key, value }),
            response.code == self.code,
            response.body == self.body,
    {
        let mut response = self;
        response.headers.push(Header { name: key, value });
        response
    }
}

impl JsonResponse<JsonStatus> {
    /// Says that the answer reports `code` with the given detail and carries
    /// no headers.
    pub open spec fn is_status(&self, code: u16, detail: Option<Seq<char>>) -> bool {
        &&& self.headers@ == Seq::<Header>::empty()
        &&& self.code == code
        &&& self.body.reports(code, detail)
    }

    /// An answer that reports `code` and nothing else.
    pub fn of_status(code: u16) -> (response: JsonResponse<JsonStatus>)
        ensures
            response.is_status(code, None),
    {
        JsonResponse { headers: Vec::new(), code, body: JsonStatus::of(code, None) }
    }

    /// The same answer, its body replaced by one that reports the answer's
    /// status code with `detail`.
    pub fn with_detail(self, detail: String) -> (response: JsonResponse<JsonStatus>)
        ensures
            response.headers == self.headers,
            response.code == self.code,
            response.body.reports(self.code, Some(detail@)),
    {
        let mut response = self;
        response.body = JsonStatus::of(response.code, Some(detail));
        response
    }
}

/// Why a handler gave no answer of its own: it raised a prepared answer, or
/// it met a failure that the client is told nothing about.
#[derive(Debug)]
pub enum ResponseError {
    /// An answer that the handler raised on purpose.
    Status(JsonResponse<JsonStatus>),
    /// A failure inside the server, with a description for the server's log.
    Internal(String),
}

impl ResponseError {
    /// The answer that the client gets for this error: the raised answer as it
    /// is, and for a failure inside the server the bare status
    /// `INTERNAL_SERVER_ERROR`, without the description.
    pub fn into_response(self) -> (response: JsonResponse<JsonStatus>)
        ensures
            match self {
                ResponseError::Status(raised) => response == raised,
                ResponseError::Internal(_) => response.is_status(INTERNAL_SERVER_ERROR, None),
            },
    {
        match self {
            ResponseError::Status(raised) => raised,
            ResponseError::Internal(_) => JsonResponse::of_status(INTERNAL_SERVER_ERROR),
        }
    }
}

} // verus!
