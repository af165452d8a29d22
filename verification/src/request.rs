//! Requests and the routing table.

use vstd::prelude::*;
use vstd::string::*;

verus! {

/// The method of a request.
#[derive(Clone, Copy, Debug, PartialEq, Eq, Structural)]
pub enum Method {
    Options,
    Get,
    Post,
    Put,
    Delete,
    Head,
    Trace,
    Connect,
    Patch,
    /// Any method token that is none of the above.
    Extension,
}

/// The handler that the router selects for a request.
#[derive(Clone, Copy, Debug, PartialEq, Eq, Structural)]
pub enum Handler {
    /// Serve the default document.
    Root,
    /// Serve the document named by the request path.
    GetFile,
    /// Serve the "method not allowed" document with status 405.
    InvalidMethod,
}

/// The routing table: `GET /` goes to the root handler, every other `GET` to
/// the file handler, every other method to the invalid-method handler.
pub open spec fn select(method: Method, path: Seq<char>) -> Handler {
    if method != Method::Get {
        Handler::InvalidMethod
    } else if path == "/"@ {
        Handler::Root
    } else {
        Handler::GetFile
    }
}

/// The document served for the root path.
pub open spec fn index_document() -> Seq<char> {
    "index.html"@
}

/// The document served when the requested one cannot be read.
pub open spec fn not_found_document() -> Seq<char> {
    "not_found.html"@
}

/// The document served for a method other than `GET`.
pub open spec fn invalid_method_document() -> Seq<char> {
    "invalid_method.html"@
}

/// The logical path of the document that a handler serves for a request path.
pub open spec fn document(handler: Handler, path: Seq<char>) -> Seq<char> {
    match handler {
        Handler::Root => index_document(),
        Handler::GetFile => path,
        Handler::InvalidMethod => invalid_method_document(),
    }
}

/// Tells whether a request path is the root path `/`.
pub fn is_root_path(path: &str) -> (root: bool)
    ensures
        root == (path@ == "/"@),
{
    proof {
        reveal_strlit("/");
    }
    let n: usize = path.unicode_len();
    if n == 1 {
        let root = path.get_char(0) == '/';
        proof {
            if root {
                assert(path@ =~= "/"@);
            }
        }
        root
    } else {
        false
    }
}

/// Selects the handler for a request by its method and path.
pub fn route(method: Method, path: &str) -> (handler: Handler)
    ensures
        handler == select(method, path@),
{
    match method {
        Method::Get => {
            if is_root_path(path) {
                Handler::Root
            } else {
                Handler::GetFile
            }
        },
        _ => Handler::InvalidMethod,
    }
}

/// The logical path of the document that `handler` serves for `path`.
pub fn document_for(handler: Handler, path: &str) -> (doc: String)
    ensures
        doc@ == document(handler, path@),
{
    match handler {
        Handler::Root => String::from_str("index.html"),
        Handler::GetFile => String::from_str(path),
        Handler::InvalidMethod => String::from_str("invalid_method.html"),
    }
}

} // verus!
