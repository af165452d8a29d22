use file_server::exchange::{
    advance, begin, finish, handle_get_file, handle_invalid_method, handle_root, send_file_or_404,
    Exchange, Stage, Step,
};
use file_server::outcome::{FailureReason, FileReadOutcome};
use file_server::request::{Handler, Method};
use file_server::response::{Response, StatusCode};

/// Reads from a disk given as a list of paths and contents. A double
/// separator names the same file as a single one, as it does on disk.
fn read(disk: &[(&str, &[u8])], path: &str) -> FileReadOutcome {
    let path = path.replace("//", "/");
    for (name, bytes) in disk {
        if *name == path {
            return FileReadOutcome::Success(bytes.to_vec());
        }
    }
    FileReadOutcome::Failure(FailureReason::Open)
}

/// Runs one exchange to its end and returns the response with the paths read.
fn serve(disk: &[(&str, &[u8])], method: Method, path: &str) -> (Response, Vec<String>) {
    let mut reads = Vec::new();
    let mut step = begin(method, path);
    loop {
        match step {
            Step::Respond(response) => return (response, reads),
            Step::Read(exchange, file) => {
                assert!(reads.len() < 2);
                let outcome = read(disk, &file);
                reads.push(file);
                step = advance(exchange, outcome);
            }
        }
    }
}

/// Checks a response field by field.
fn check(r: &Response, status: StatusCode, body: Option<&[u8]>, content_length: Option<u64>) {
    assert_eq!(r.status(), status);
    assert_eq!(r.body().map(|bytes| bytes.as_slice()), body);
    assert_eq!(r.content_length(), content_length);
    assert_eq!(r.body_len(), body.map_or(0, |bytes| bytes.len()));
}

/// The response of a step that ends an exchange.
fn respond(step: Step) -> Response {
    match step {
        Step::Respond(response) => response,
        Step::Read(_, path) => panic!("expected a response, was asked to read {}", path),
    }
}

fn primary(handler: Handler) -> Exchange {
    Exchange { handler, stage: Stage::Primary }
}

fn fallback(handler: Handler) -> Exchange {
    Exchange { handler, stage: Stage::Fallback }
}

#[test]
fn handlers_begin_with_their_document() {
    assert_eq!(handle_root(), Step::Read(primary(Handler::Root), "files/index.html".to_string()));
    assert_eq!(
        handle_get_file("/a.html"),
        Step::Read(primary(Handler::GetFile), "files//a.html".to_string())
    );
    assert_eq!(
        handle_invalid_method(),
        Step::Read(primary(Handler::InvalidMethod), "files/invalid_method.html".to_string())
    );
    assert_eq!(
        send_file_or_404(Handler::GetFile, "x"),
        Step::Read(primary(Handler::GetFile), "files/x".to_string())
    );
}

#[test]
fn begin_routes_and_resolves() {
    assert_eq!(begin(Method::Get, "/"), handle_root());
    assert_eq!(begin(Method::Get, "/a.html"), handle_get_file("/a.html"));
    assert_eq!(begin(Method::Post, "/a.html"), handle_invalid_method());
    assert_eq!(begin(Method::Delete, "/"), handle_invalid_method());
}

#[test]
fn primary_success_responds_with_file() {
    let step = advance(primary(Handler::GetFile), FileReadOutcome::Success(b"data".to_vec()));
    check(&respond(step), StatusCode::Success, Some(b"data"), Some(4));
}

#[test]
fn primary_failure_asks_for_fallback_page() {
    for reason in [FailureReason::Open, FailureReason::Read, FailureReason::Worker] {
        for handler in [Handler::Root, Handler::GetFile, Handler::InvalidMethod] {
            let step = advance(primary(handler), FileReadOutcome::Failure(reason));
            assert_eq!(step, Step::Read(fallback(handler), "files/not_found.html".to_string()));
        }
    }
}

#[test]
fn fallback_success_responds_404_with_page() {
    let step = advance(fallback(Handler::Root), FileReadOutcome::Success(b"nope".to_vec()));
    check(&respond(step), StatusCode::NotFound, Some(b"nope"), Some(4));
}

#[test]
fn fallback_failure_responds_404_without_body() {
    for reason in [FailureReason::Open, FailureReason::Read, FailureReason::Worker] {
        let step = advance(fallback(Handler::GetFile), FileReadOutcome::Failure(reason));
        check(&respond(step), StatusCode::NotFound, None, None);
    }
}

#[test]
fn finish_forces_405_only_for_invalid_method() {
    let file = Response::from_file(vec![9]);
    assert_eq!(finish(Handler::Root, file.clone()), file);
    assert_eq!(finish(Handler::GetFile, file.clone()), file);
    check(&finish(Handler::InvalidMethod, file), StatusCode::MethodNotAllowed, Some(&[9]), Some(1));
    check(
        &finish(Handler::InvalidMethod, Response::new().with_status(StatusCode::NotFound)),
        StatusCode::MethodNotAllowed,
        None,
        None,
    );
}

#[test]
fn scenario_only_index_on_disk() {
    let disk: [(&str, &[u8]); 1] = [("files/index.html", b"hello")];

    let (r, reads) = serve(&disk, Method::Get, "/");
    assert_eq!(r.status_code(), 200);
    check(&r, StatusCode::Success, Some(b"hello"), Some(5));
    assert_eq!(reads, vec!["files/index.html".to_string()]);

    let (r, reads) = serve(&disk, Method::Get, "/missing.html");
    assert_eq!(r.status_code(), 404);
    check(&r, StatusCode::NotFound, None, None);
    assert_eq!(
        reads,
        vec!["files//missing.html".to_string(), "files/not_found.html".to_string()]
    );

    let (r, reads) = serve(&disk, Method::Post, "/");
    assert_eq!(r.status_code(), 405);
    check(&r, StatusCode::MethodNotAllowed, None, None);
    assert_eq!(
        reads,
        vec!["files/invalid_method.html".to_string(), "files/not_found.html".to_string()]
    );
}

#[test]
fn existing_file_is_delivered_exactly() {
    let contents: Vec<u8> = (0u8..=255).collect();
    let disk: [(&str, &[u8]); 2] = [("files/blob.bin", &contents), ("files/not_found.html", b"nf")];
    let (r, _) = serve(&disk, Method::Get, "/blob.bin");
    check(&r, StatusCode::Success, Some(&contents), Some(256));
}

#[test]
fn missing_file_gets_fallback_page() {
    let disk: [(&str, &[u8]); 2] = [("files/index.html", b"hello"), ("files/not_found.html", b"not here")];
    let (r, _) = serve(&disk, Method::Get, "/nothing.html");
    check(&r, StatusCode::NotFound, Some(b"not here"), Some(8));
}

#[test]
fn root_is_served_like_index() {
    let with_index: [(&str, &[u8]); 2] = [("files/index.html", b"home"), ("files/not_found.html", b"nf")];
    assert_eq!(
        serve(&with_index, Method::Get, "/").0,
        serve(&with_index, Method::Get, "/index.html").0
    );
    let without: [(&str, &[u8]); 1] = [("files/not_found.html", b"nf")];
    assert_eq!(serve(&without, Method::Get, "/").0, serve(&without, Method::Get, "/index.html").0);
    let empty: [(&str, &[u8]); 0] = [];
    assert_eq!(serve(&empty, Method::Get, "/").0, serve(&empty, Method::Get, "/index.html").0);
}

#[test]
fn other_methods_are_always_405() {
    let disks: [&[(&str, &[u8])]; 4] = [
        &[],
        &[("files/invalid_method.html", b"no")],
        &[("files/not_found.html", b"nf")],
        &[("files/index.html", b"home"), ("files/invalid_method.html", b"no"), ("files/not_found.html", b"nf")],
    ];
    for disk in disks {
        for method in [Method::Post, Method::Delete, Method::Put, Method::Head, Method::Extension] {
            for path in ["/", "/index.html", "/missing.html"] {
                assert_eq!(serve(disk, method, path).0.status_code(), 405);
            }
        }
    }
}

#[test]
fn invalid_method_page_is_the_405_body() {
    let disk: [(&str, &[u8]); 2] = [("files/invalid_method.html", b"bad method"), ("files/not_found.html", b"nf")];
    let (r, reads) = serve(&disk, Method::Put, "/index.html");
    check(&r, StatusCode::MethodNotAllowed, Some(b"bad method"), Some(10));
    assert_eq!(reads, vec!["files/invalid_method.html".to_string()]);
}

#[test]
fn invalid_method_falls_back_like_any_document() {
    let disk: [(&str, &[u8]); 1] = [("files/not_found.html", b"nf")];
    let (r, _) = serve(&disk, Method::Delete, "/");
    check(&r, StatusCode::MethodNotAllowed, Some(b"nf"), Some(2));
}

#[test]
fn repeated_get_gives_identical_responses() {
    let disk: [(&str, &[u8]); 2] = [("files/somefile.html", b"<p>same</p>"), ("files/not_found.html", b"nf")];
    let first = serve(&disk, Method::Get, "/somefile.html");
    for _ in 0..5 {
        assert_eq!(serve(&disk, Method::Get, "/somefile.html"), first);
    }
    let missing = serve(&disk, Method::Get, "/other.html");
    assert_eq!(serve(&disk, Method::Get, "/other.html"), missing);
}

#[test]
fn read_failure_is_folded_into_404() {
    let step = advance(primary(Handler::GetFile), FileReadOutcome::Failure(FailureReason::Read));
    let Step::Read(exchange, path) = step else { panic!("expected a read") };
    assert_eq!(path, "files/not_found.html");
    let step = advance(exchange, FileReadOutcome::Success(b"nf".to_vec()));
    let r = respond(step);
    assert_eq!(r.status_code(), 404);
    check(&r, StatusCode::NotFound, Some(b"nf"), Some(2));
}

#[test]
fn worker_failure_on_both_reads_still_responds() {
    let step = advance(primary(Handler::Root), FileReadOutcome::received(None));
    let Step::Read(exchange, _) = step else { panic!("expected a read") };
    let step = advance(exchange, FileReadOutcome::received(None));
    check(&respond(step), StatusCode::NotFound, None, None);
}

#[test]
fn traversal_is_not_rejected() {
    let disk: [(&str, &[u8]); 1] = [("files/../secret", b"s")];
    let (r, reads) = serve(&disk, Method::Get, "../secret");
    assert_eq!(reads, vec!["files/../secret".to_string()]);
    check(&r, StatusCode::Success, Some(b"s"), Some(1));
}
