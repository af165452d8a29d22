//! Responses and how they are built from read outcomes.

use vstd::prelude::*;
use crate::outcome::{FailureReason, FileReadOutcome};

verus! {

/// The status of a response.
#[derive(Clone, Copy, Debug, PartialEq, Eq, Structural)]
pub enum StatusCode {
    Success,
    NotFound,
    MethodNotAllowed,
}

impl StatusCode {
    /// The numeric code sent on the wire.
    pub open spec fn code(self) -> u16 {
        match self {
            StatusCode::Success => 200,
            StatusCode::NotFound => 404,
            StatusCode::MethodNotAllowed => 405,
        }
    }

    /// The numeric code sent on the wire.
    pub fn as_u16(self) -> (n: u16)
        ensures
            n == self.code(),
    {
        match self {
            StatusCode::Success => 200,
            StatusCode::NotFound => 404,
            StatusCode::MethodNotAllowed => 405,
        }
    }
}

/// A response: a status, an optional body and an optional `Content-Length`
/// header. No other header is ever set, and the header always agrees with
/// the body (see [`ResponseView::wf`]).
#[derive(Debug, PartialEq, Eq)]
pub struct Response {
    status: StatusCode,
    body: Option<Vec<u8>>,
    content_length: Option<u64>,
}

/// The mathematical value of a [`Response`].
pub struct ResponseView {
    pub status: StatusCode,
    pub body: Option<Seq<u8>>,
    pub content_length: Option<u64>,
}

impl View for Response {
    type V = ResponseView;

    closed spec fn view(&self) -> ResponseView {
        ResponseView {
            status: self.status,
            body: match self.body {
                Some(bytes) => Some(bytes@),
                None => None,
            },
            content_length: self.content_length,
        }
    }
}

impl Clone for Response {
    fn clone(&self) -> (copy: Response)
        ensures
            copy@ == self@,
    {
        proof {
            use_type_invariant(self);
        }
        let body = match &self.body {
            Some(bytes) => {
                let copied = bytes.clone();
                assert(copied@ =~= bytes@);
                Some(copied)
            },
            None => None,
        };
        Response { status: self.status, body, content_length: self.content_length }
    }
}

impl ResponseView {
    /// The `Content-Length` header is present exactly when a body is, and
    /// then holds the body's length.
    pub open spec fn wf(self) -> bool {
        match self.body {
            Some(bytes) => bytes.len() <= u64::MAX && self.content_length == Some(
                bytes.len() as u64,
            ),
            None => self.content_length is None,
        }
    }

    /// The bytes the client receives as the body: none where there is no body.
    pub open spec fn body_bytes(self) -> Seq<u8> {
        match self.body {
            Some(bytes) => bytes,
            None => Seq::empty(),
        }
    }
}

/// The response that delivers a file: status 200, the bytes as the body, and
/// their count as `Content-Length`.
pub open spec fn file_response(bytes: Seq<u8>) -> ResponseView {
    ResponseView {
        status: StatusCode::Success,
        body: Some(bytes),
        content_length: Some(bytes.len() as u64),
    }
}

/// The bare response: status 200, no body, no header.
pub open spec fn empty_response() -> ResponseView {
    ResponseView { status: StatusCode::Success, body: None, content_length: None }
}

/// A response with its status replaced and everything else kept.
pub open spec fn restated(response: ResponseView, status: StatusCode) -> ResponseView {
    ResponseView { status, body: response.body, content_length: response.content_length }
}

/// What one read yields on its own: the file's response, or the failure.
pub open spec fn sent_file(outcome: Result<Seq<u8>, FailureReason>) -> Result<
    ResponseView,
    FailureReason,
> {
    match outcome {
        Ok(bytes) => Ok(file_response(bytes)),
        Err(reason) => Err(reason),
    }
}

/// The response for a document that could not be read, given the outcome of
/// reading the fallback page: status 404 either way, with the fallback page
/// as the body if it could be read and no body if it could not.
pub open spec fn not_found_response(fallback: Result<Seq<u8>, FailureReason>) -> ResponseView {
    match sent_file(fallback) {
        Ok(page) => restated(page, StatusCode::NotFound),
        Err(_) => restated(empty_response(), StatusCode::NotFound),
    }
}

impl Response {
    /// Holds of every response: the header agrees with the body.
    #[verifier::type_invariant]
    pub open spec fn header_agrees_with_body(&self) -> bool {
        self@.wf()
    }

    /// The bare response: status 200, no body, no header.
    pub fn new() -> (response: Response)
        ensures
            response@ == empty_response(),
            response@.wf(),
    {
        Response { status: StatusCode::Success, body: None, content_length: None }
    }

    /// The same response under another status.
    pub fn with_status(self, status: StatusCode) -> (response: Response)
        ensures
            response@ == restated(self@, status),
            response@.wf(),
    {
        proof {
            use_type_invariant(&self);
        }
        Response { status, body: self.body, content_length: self.content_length }
    }

    /// The response that delivers `bytes` as a file.
    pub fn from_file(bytes: Vec<u8>) -> (response: Response)
        ensures
            response@ == file_response(bytes@),
            response@.wf(),
    {
        let n: u64 = bytes.len() as u64;
        Response { status: StatusCode::Success, body: Some(bytes), content_length: Some(n) }
    }

    /// The response for a document that could not be read, from the outcome
    /// of reading the fallback page.
    pub fn not_found(fallback: FileReadOutcome) -> (response: Response)
        ensures
            response@ == not_found_response(fallback@),
            response@.wf(),
    {
        match try_to_send_file(fallback) {
            Ok(page) => page.with_status(StatusCode::NotFound),
            Err(_) => Response::new().with_status(StatusCode::NotFound),
        }
    }

    /// The status.
    pub fn status(&self) -> (status: StatusCode)
        ensures
            status == self@.status,
    {
        self.status
    }

    /// The wire code of the status.
    pub fn status_code(&self) -> (n: u16)
        ensures
            n == self@.status.code(),
    {
        self.status.as_u16()
    }

    /// The value of the `Content-Length` header, if the header is set: it
    /// is set exactly when there is a body, and then counts the body's bytes.
    pub fn content_length(&self) -> (n: Option<u64>)
        ensures
            n == self@.content_length,
            self@.wf(),
    {
        proof {
            use_type_invariant(self);
        }
        self.content_length
    }

    /// The body, if there is one.
    pub fn body(&self) -> (body: Option<&Vec<u8>>)
        ensures
            match body {
                Some(bytes) => self@.body == Some(bytes@),
                None => self@.body is None,
            },
    {
        match &self.body {
            Some(bytes) => Some(bytes),
            None => None,
        }
    }

    /// Gives the body up, if there is one.
    pub fn into_body(self) -> (body: Option<Vec<u8>>)
        ensures
            match body {
                Some(bytes) => self@.body == Some(bytes@),
                None => self@.body is None,
            },
    {
        self.body
    }

    /// The number of body bytes the client receives.
    pub fn body_len(&self) -> (n: usize)
        ensures
            n == self@.body_bytes().len(),
    {
        match &self.body {
            Some(bytes) => bytes.len(),
            None => 0,
        }
    }
}

/// Turns the outcome of one read into the response that delivers the file,
/// or passes the failure on.
pub fn try_to_send_file(outcome: FileReadOutcome) -> (sent: Result<Response, FailureReason>)
    ensures
        match sent {
            Ok(response) => sent_file(outcome@) == Ok::<ResponseView, FailureReason>(response@)
                && response@.wf(),
            Err(reason) => sent_file(outcome@) == Err::<ResponseView, FailureReason>(reason),
        },
{
    match outcome {
        FileReadOutcome::Success(bytes) => Ok(Response::from_file(bytes)),
        FileReadOutcome::Failure(reason) => Err(reason),
    }
}

} // verus!
