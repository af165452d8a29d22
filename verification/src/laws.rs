//! What holds of every request, whatever is on disk.
//!
//! The disk is a function from paths to read outcomes. Nothing is assumed of
//! it: a path may hold any bytes or fail for any reason.

use vstd::prelude::*;
use crate::exchange::{after_read, finished, first_step, next_step, served, Exchange, Stage, StepView};
use crate::outcome::FailureReason;
use crate::request::{document, index_document, not_found_document, select, Handler, Method};
use crate::resolver::{disk_path, root_dir};
use crate::response::{file_response, not_found_response, restated, ResponseView, StatusCode};

verus! {

/// Every exchange is over after at most two reads, and the response it ends
/// with is the one that [`served`] describes.
pub proof fn lemma_exchange_ends_with_served(
    reads: spec_fn(Seq<char>) -> Result<Seq<u8>, FailureReason>,
    method: Method,
    path: Seq<char>,
)
    ensures
        after_read(reads, after_read(reads, first_step(method, path))) == StepView::Respond(
            served(reads, method, path),
        ),
        reads(disk_path(document(select(method, path), path))) is Ok ==> after_read(
            reads,
            first_step(method, path),
        ) == StepView::Respond(served(reads, method, path)),
{
}

/// Every response is well formed and carries one of the three statuses:
/// 200 and 404 for a `GET`, 405 for anything else.
pub proof fn lemma_served_is_well_formed(
    reads: spec_fn(Seq<char>) -> Result<Seq<u8>, FailureReason>,
    method: Method,
    path: Seq<char>,
)
    requires
        forall|p: Seq<char>|
            match #[trigger] reads(p) {
                Ok(bytes) => bytes.len() <= u64::MAX,
                Err(_) => true,
            },
    ensures
        served(reads, method, path).wf(),
        method == Method::Get ==> served(reads, method, path).status != StatusCode::MethodNotAllowed,
        method != Method::Get ==> served(reads, method, path).status == StatusCode::MethodNotAllowed,
{
}

/// A `GET` for a document that can be read is answered with status 200, the
/// file's exact bytes as the body, and their count as `Content-Length`.
pub proof fn lemma_readable_file_is_delivered(
    reads: spec_fn(Seq<char>) -> Result<Seq<u8>, FailureReason>,
    path: Seq<char>,
    bytes: Seq<u8>,
)
    requires
        bytes.len() <= u64::MAX,
        reads(disk_path(document(select(Method::Get, path), path))) == Ok::<
            Seq<u8>,
            FailureReason,
        >(bytes),
    ensures
        served(reads, Method::Get, path) == (ResponseView {
            status: StatusCode::Success,
            body: Some(bytes),
            content_length: Some(bytes.len() as u64),
        }),
        served(reads, Method::Get, path).body_bytes() == bytes,
        served(reads, Method::Get, path).content_length matches Some(n) && n as nat
            == bytes.len(),
        served(reads, Method::Get, path).wf(),
        path != "/"@ ==> document(select(Method::Get, path), path) == path,
{
}

/// A `GET` for a document that cannot be read, for whatever reason, is
/// answered with status 404. The body is the fallback page, with its length
/// as `Content-Length`, if that page can be read; if not, there is no body
/// and no header.
pub proof fn lemma_unreadable_file_is_not_found(
    reads: spec_fn(Seq<char>) -> Result<Seq<u8>, FailureReason>,
    path: Seq<char>,
)
    requires
        reads(disk_path(document(select(Method::Get, path), path))) is Err,
    ensures
        served(reads, Method::Get, path).status == StatusCode::NotFound,
        match reads(disk_path(not_found_document())) {
            Ok(page) => served(reads, Method::Get, path) == (ResponseView {
                status: StatusCode::NotFound,
                body: Some(page),
                content_length: Some(page.len() as u64),
            }),
            Err(_) => served(reads, Method::Get, path) == (ResponseView {
                status: StatusCode::NotFound,
                body: None,
                content_length: None,
            }),
        },
{
}

/// `GET /` has the outcome of `GET /index.html` on every disk where the two
/// paths that these requests resolve to read alike. The two paths differ by
/// one doubled separator behind the root directory, so on a file system they
/// name the same file.
pub proof fn lemma_root_is_index(reads: spec_fn(Seq<char>) -> Result<Seq<u8>, FailureReason>)
    requires
        reads(disk_path(index_document())) == reads(disk_path("/index.html"@)),
    ensures
        served(reads, Method::Get, "/"@) == served(reads, Method::Get, "/index.html"@),
        select(Method::Get, "/"@) == Handler::Root,
        select(Method::Get, "/index.html"@) == Handler::GetFile,
        disk_path("/index.html"@) == root_dir() + "/"@ + index_document(),
{
    reveal_strlit("/");
    reveal_strlit("/index.html");
    reveal_strlit("index.html");
    assert("/"@.len() != "/index.html"@.len());
    assert("/index.html"@ =~= "/"@ + index_document());
    assert(disk_path("/index.html"@) =~= root_dir() + "/"@ + index_document());
}

/// A method other than `GET` is answered with status 405 on every path and
/// every disk; body and header are those that a `GET` for the invalid-method
/// document would have had.
pub proof fn lemma_other_method_is_405(
    reads: spec_fn(Seq<char>) -> Result<Seq<u8>, FailureReason>,
    method: Method,
    path: Seq<char>,
)
    requires
        method != Method::Get,
    ensures
        served(reads, method, path).status == StatusCode::MethodNotAllowed,
        served(reads, method, path) == restated(
            match reads(disk_path(document(Handler::InvalidMethod, path))) {
                Ok(bytes) => file_response(bytes),
                Err(_) => not_found_response(reads(disk_path(not_found_document()))),
            },
            StatusCode::MethodNotAllowed,
        ),
{
}

/// An exchange of the invalid-method handler never ends in another status
/// than 405, whatever the outcome handed to it.
pub proof fn lemma_invalid_method_step_is_405(
    stage: Stage,
    outcome: Result<Seq<u8>, FailureReason>,
)
    ensures
        next_step(Exchange { handler: Handler::InvalidMethod, stage }, outcome) matches StepView::Respond(
            response,
        ) ==> response.status == StatusCode::MethodNotAllowed,
{
}

/// The response to a request depends on nothing but the two files it may
/// read. Two disks that agree on the handler's document and on the fallback
/// page give the same response, byte for byte; so does one disk, asked again
/// while those files are unchanged.
pub proof fn lemma_same_files_same_response(
    first: spec_fn(Seq<char>) -> Result<Seq<u8>, FailureReason>,
    second: spec_fn(Seq<char>) -> Result<Seq<u8>, FailureReason>,
    method: Method,
    path: Seq<char>,
)
    requires
        first(disk_path(document(select(method, path), path))) == second(
            disk_path(document(select(method, path), path)),
        ),
        first(disk_path(not_found_document())) == second(disk_path(not_found_document())),
    ensures
        served(first, method, path) == served(second, method, path),
{
}

/// Restating a finished response changes nothing but its status.
pub proof fn lemma_finished_keeps_body(handler: Handler, response: ResponseView)
    ensures
        finished(handler, response).body == response.body,
        finished(handler, response).content_length == response.content_length,
        handler != Handler::InvalidMethod ==> finished(handler, response) == response,
{
}

} // verus!
