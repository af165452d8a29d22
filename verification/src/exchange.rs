//! One request from its arrival to its response.
//!
//! An exchange asks for at most two file reads. It begins by asking for the
//! handler's document. If that read succeeds the exchange answers with the
//! file; if it fails, for whatever reason, the exchange asks for the fallback
//! page and answers with status 404 once that second read has ended. The
//! invalid-method handler takes the same course and then answers with status
//! 405 whatever came of it.

use vstd::prelude::*;
use crate::outcome::{FailureReason, FileReadOutcome};
use crate::request::{
    document,
    index_document,
    invalid_method_document,
    not_found_document,
    route,
    select,
    Handler,
    Method,
};
use crate::resolver::{disk_path, path_on_disk};
use crate::response::{
    file_response,
    not_found_response,
    restated,
    Response,
    ResponseView,
    StatusCode,
};

verus! {

/// Which read an exchange is waiting for.
#[derive(Clone, Copy, Debug, PartialEq, Eq, Structural)]
pub enum Stage {
    /// The read of the handler's document.
    Primary,
    /// The read of the fallback page, after the document could not be read.
    Fallback,
}

/// A request whose response is still owed.
#[derive(Clone, Copy, Debug, PartialEq, Eq, Structural)]
pub struct Exchange {
    pub handler: Handler,
    pub stage: Stage,
}

/// What the caller has to do next for an exchange.
#[derive(Clone, Debug, PartialEq, Eq)]
pub enum Step {
    /// Read the file at this path on disk and hand the outcome to
    /// [`advance`] together with this exchange.
    Read(Exchange, String),
    /// Send this response: the exchange is over.
    Respond(Response),
}

/// The mathematical value of a [`Step`].
pub enum StepView {
    Read(Exchange, Seq<char>),
    Respond(ResponseView),
}

impl View for Step {
    type V = StepView;

    open spec fn view(&self) -> StepView {
        match *self {
            Step::Read(exchange, path) => StepView::Read(exchange, path@),
            Step::Respond(response) => StepView::Respond(response@),
        }
    }
}

/// The first step of a handler that serves `doc`: read it from disk.
pub open spec fn opening(handler: Handler, doc: Seq<char>) -> StepView {
    StepView::Read(Exchange { handler, stage: Stage::Primary }, disk_path(doc))
}

/// The first step for a request.
pub open spec fn first_step(method: Method, path: Seq<char>) -> StepView {
    let handler = select(method, path);
    opening(handler, document(handler, path))
}

/// The response a handler gives out, from the one that the reads produced:
/// the invalid-method handler restates it as 405, the others pass it on.
pub open spec fn finished(handler: Handler, response: ResponseView) -> ResponseView {
    match handler {
        Handler::InvalidMethod => restated(response, StatusCode::MethodNotAllowed),
        _ => response,
    }
}

/// The step that follows when the read an exchange waits for has ended with
/// `outcome`.
pub open spec fn next_step(exchange: Exchange, outcome: Result<Seq<u8>, FailureReason>) -> StepView {
    match exchange.stage {
        Stage::Primary => match outcome {
            Ok(bytes) => StepView::Respond(finished(exchange.handler, file_response(bytes))),
            Err(_) => StepView::Read(
                Exchange { handler: exchange.handler, stage: Stage::Fallback },
                disk_path(not_found_document()),
            ),
        },
        Stage::Fallback => StepView::Respond(
            finished(exchange.handler, not_found_response(outcome)),
        ),
    }
}

/// The step that follows `step` on a disk where reading a path yields what
/// `reads` says: a pending read is performed and its outcome handed over, a
/// response stays as it is.
pub open spec fn after_read(
    reads: spec_fn(Seq<char>) -> Result<Seq<u8>, FailureReason>,
    step: StepView,
) -> StepView {
    match step {
        StepView::Read(exchange, path) => next_step(exchange, reads(path)),
        StepView::Respond(_) => step,
    }
}

/// The response to a request on a disk where reading a path yields what
/// `reads` says.
///
/// The handler's document is read. If that succeeds the response is the file
/// with status 200; if not, the fallback page is read and the response has
/// status 404, with that page as its body if it could be read. The
/// invalid-method handler then restates the status as 405.
pub open spec fn served(
    reads: spec_fn(Seq<char>) -> Result<Seq<u8>, FailureReason>,
    method: Method,
    path: Seq<char>,
) -> ResponseView {
    let handler = select(method, path);
    finished(
        handler,
        match reads(disk_path(document(handler, path))) {
            Ok(bytes) => file_response(bytes),
            Err(_) => not_found_response(reads(disk_path(not_found_document()))),
        },
    )
}

/// Begins an exchange in which `handler` serves the document `path`.
pub fn send_file_or_404(handler: Handler, path: &str) -> (step: Step)
    ensures
        step@ == opening(handler, path@),
{
    Step::Read(Exchange { handler, stage: Stage::Primary }, path_on_disk(path))
}

/// Begins the exchange that serves the default document.
pub fn handle_root() -> (step: Step)
    ensures
        step@ == opening(Handler::Root, index_document()),
{
    send_file_or_404(Handler::Root, "index.html")
}

/// Begins the exchange that serves the document at `file`.
pub fn handle_get_file(file: &str) -> (step: Step)
    ensures
        step@ == opening(Handler::GetFile, file@),
{
    send_file_or_404(Handler::GetFile, file)
}

/// Begins the exchange that answers a method other than `GET`.
pub fn handle_invalid_method() -> (step: Step)
    ensures
        step@ == opening(Handler::InvalidMethod, invalid_method_document()),
{
    send_file_or_404(Handler::InvalidMethod, "invalid_method.html")
}

/// Begins the exchange for a request: routes it and asks for the first read.
pub fn begin(method: Method, path: &str) -> (step: Step)
    ensures
        step@ == first_step(method, path@),
{
    match route(method, path) {
        Handler::Root => handle_root(),
        Handler::GetFile => handle_get_file(path),
        Handler::InvalidMethod => handle_invalid_method(),
    }
}

/// Gives a handler's response out: restated as 405 for the invalid-method
/// handler, unchanged for the others.
pub fn finish(handler: Handler, response: Response) -> (out: Response)
    ensures
        out@ == finished(handler, response@),
        out@.wf(),
{
    match handler {
        Handler::InvalidMethod => response.with_status(StatusCode::MethodNotAllowed),
        _ => {
            proof {
                use_type_invariant(&response);
            }
            response
        },
    }
}

/// Moves an exchange on once the read it was waiting for has ended.
pub fn advance(exchange: Exchange, outcome: FileReadOutcome) -> (step: Step)
    ensures
        step@ == next_step(exchange, outcome@),
        step matches Step::Respond(response) ==> response@.wf(),
{
    match exchange.stage {
        Stage::Primary => match outcome {
            FileReadOutcome::Success(bytes) => Step::Respond(
                finish(exchange.handler, Response::from_file(bytes)),
            ),
            FileReadOutcome::Failure(_) => Step::Read(
                Exchange { handler: exchange.handler, stage: Stage::Fallback },
                path_on_disk("not_found.html"),
            ),
        },
        Stage::Fallback => Step::Respond(finish(exchange.handler, Response::not_found(outcome))),
    }
}

} // verus!
