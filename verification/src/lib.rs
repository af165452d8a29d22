//! The decision core of a small static file server.
//!
//! A request is a method and a path. The router picks a handler, the resolver
//! turns the handler's document into a path on disk, and an exchange walks
//! through at most two file reads (the document, then the fallback page)
//! before it settles on a response. Reading files and speaking HTTP happen
//! outside this crate: the caller performs each read the exchange asks for
//! and hands the outcome back.

pub mod resolver;
pub mod request;
pub mod outcome;
pub mod response;
pub mod exchange;
pub mod laws;
