use static_file_server::handler::{FileRead, MetadataQuery, Step};
use static_file_server::response::Response;
use static_file_server::status::Status;
use static_file_server::StaticFileHandler;
use std::io::ErrorKind;
use std::path::PathBuf;

fn segments(parts: &[&str]) -> Vec<String> {
    parts.iter().map(|part| part.to_string()).collect()
}

fn www() -> StaticFileHandler {
    StaticFileHandler::new(PathBuf::from("/srv/www"))
}

/// Runs one request against a filesystem that gives these two outcomes for
/// its path, and says which path was asked for.
fn run(
    handler: &StaticFileHandler,
    parts: &[&str],
    metadata: Result<u64, ErrorKind>,
    contents: Result<Vec<u8>, ErrorKind>,
) -> (PathBuf, Response) {
    let query = handler.static_page(&segments(parts));
    let path = query.path.clone();
    match query.on_metadata(metadata) {
        Step::Reply(response) => (path, response),
        Step::Read(read) => {
            assert_eq!(read.path, path);
            (path, read.on_contents(contents))
        }
    }
}

#[test]
fn an_existing_file_is_served() {
    let (path, response) = run(&www(), &["hello.txt"], Ok(3), Ok(b"hi\n".to_vec()));
    assert_eq!(path, PathBuf::from("/srv/www/hello.txt"));
    assert_eq!(response.status, Status::Success);
    assert_eq!(response.status.code(), 200);
    assert_eq!(response.body, b"hi\n");
    assert_eq!(response.content_type, "text/plain");
}

#[test]
fn a_missing_file_is_not_found() {
    let (path, response) =
        run(&www(), &["missing.txt"], Err(ErrorKind::NotFound), Err(ErrorKind::NotFound));
    assert_eq!(path, PathBuf::from("/srv/www/missing.txt"));
    assert_eq!(response.status, Status::NotFound);
    assert_eq!(response.status.code(), 404);
    assert!(String::from_utf8(response.body).unwrap().contains("404"));
    assert_eq!(response.content_type, "text/plain");
}

#[test]
fn an_unreadable_file_is_forbidden() {
    let (_, response) =
        run(&www(), &["private.txt"], Ok(12), Err(ErrorKind::PermissionDenied));
    assert_eq!(response.status, Status::Forbidden);
    assert_eq!(response.status.code(), 403);
    assert_eq!(response.body, b"403 Forbidden");
}

#[test]
fn an_unreadable_directory_on_the_way_is_forbidden() {
    let (_, response) = run(
        &www(),
        &["private", "notes.txt"],
        Err(ErrorKind::PermissionDenied),
        Ok(b"never read".to_vec()),
    );
    assert_eq!(response.status.code(), 403);
    assert_eq!(response.body, b"403 Forbidden");
}

#[test]
fn a_failed_metadata_query_is_answered_without_a_read() {
    let query = www().static_page(&segments(&["missing.txt"]));
    match query.on_metadata(Err(ErrorKind::NotFound)) {
        Step::Reply(response) => assert_eq!(response.status, Status::NotFound),
        Step::Read(_) => panic!("the file must not be opened"),
    }
}

#[test]
fn a_successful_metadata_query_asks_for_the_same_path() {
    let query = www().static_page(&segments(&["hello.txt"]));
    let step = query.on_metadata(Ok(3));
    assert_eq!(
        step,
        Step::Read(FileRead { path: PathBuf::from("/srv/www/hello.txt"), capacity: 3 })
    );
}

#[test]
fn the_reported_length_is_the_capacity_hint() {
    for len in [0u64, 1, 4096, 1 << 20] {
        let query = MetadataQuery { path: PathBuf::from("/srv/www/data.bin") };
        match query.on_metadata(Ok(len)) {
            Step::Read(read) => assert_eq!(read.capacity as u64, len),
            Step::Reply(_) => panic!("the file is to be read"),
        }
    }
}

#[test]
fn a_file_that_grew_or_shrank_is_served_as_read() {
    let (_, longer) = run(&www(), &["log.txt"], Ok(2), Ok(b"much longer".to_vec()));
    assert_eq!(longer.status, Status::Success);
    assert_eq!(longer.body, b"much longer");
    let (_, shorter) = run(&www(), &["log.txt"], Ok(1000), Ok(b"x".to_vec()));
    assert_eq!(shorter.status, Status::Success);
    assert_eq!(shorter.body, b"x");
}

#[test]
fn a_file_that_vanished_before_the_read_is_not_found() {
    let (_, response) = run(&www(), &["gone.txt"], Ok(5), Err(ErrorKind::NotFound));
    assert_eq!(response.status.code(), 404);
    assert_eq!(response.body, b"404 Not Found");
}

#[test]
fn a_read_that_fails_otherwise_is_an_internal_error() {
    let (_, response) = run(&www(), &["dir"], Ok(4096), Err(ErrorKind::Other));
    assert_eq!(response.status, Status::InternalServerError);
    assert_eq!(response.status.code(), 500);
    assert_eq!(response.body, b"500 Internal Server Error");
    assert_eq!(response.content_type, "text/plain");
}

#[test]
fn the_root_itself_is_handled_like_any_path() {
    let handler = www();
    let (path, response) = run(&handler, &[], Ok(4096), Err(ErrorKind::Other));
    assert_eq!(path, PathBuf::from("/srv/www"));
    assert_eq!(response.status.code(), 500);
    let parent = StaticFileHandler::new(PathBuf::from("/srv"));
    let (same_path, same_response) = run(&parent, &["www"], Ok(4096), Err(ErrorKind::Other));
    assert_eq!(same_path, path);
    assert_eq!(same_response, response);
}

#[test]
fn the_same_request_twice_gets_the_same_response() {
    let handler = www();
    let (_, first) = run(&handler, &["hello.txt"], Ok(3), Ok(b"hi\n".to_vec()));
    let (_, second) = run(&handler, &["hello.txt"], Ok(3), Ok(b"hi\n".to_vec()));
    assert_eq!(first, second);
    let (_, missing) = run(&handler, &["nope"], Err(ErrorKind::NotFound), Ok(Vec::new()));
    let (_, missing_again) = run(&handler, &["nope"], Err(ErrorKind::NotFound), Ok(Vec::new()));
    assert_eq!(missing, missing_again);
}

#[test]
fn requests_for_different_files_get_their_own_contents() {
    let handler = www();
    let names = ["a.txt", "b.txt", "c.txt", "d.txt"];
    let queries: Vec<MetadataQuery> =
        names.iter().map(|name| handler.static_page(&segments(&[name]))).collect();
    let mut reads = Vec::new();
    for query in queries.into_iter().rev() {
        match query.on_metadata(Ok(5)) {
            Step::Read(read) => reads.push(read),
            Step::Reply(_) => panic!("the file is to be read"),
        }
    }
    for read in reads {
        let name = read.path.file_name().unwrap().to_str().unwrap().to_string();
        let expected = PathBuf::from("/srv/www").join(&name);
        assert_eq!(read.path, expected);
        let response = read.on_contents(Ok(name.clone().into_bytes()));
        assert_eq!(response.status, Status::Success);
        assert_eq!(response.body, name.into_bytes());
    }
}

#[test]
fn every_status_is_one_of_four() {
    let outcomes: [(Result<u64, ErrorKind>, Result<Vec<u8>, ErrorKind>); 6] = [
        (Ok(1), Ok(vec![1])),
        (Ok(1), Err(ErrorKind::NotFound)),
        (Ok(1), Err(ErrorKind::PermissionDenied)),
        (Ok(1), Err(ErrorKind::UnexpectedEof)),
        (Err(ErrorKind::NotFound), Ok(vec![1])),
        (Err(ErrorKind::InvalidInput), Ok(vec![1])),
    ];
    for (metadata, contents) in outcomes {
        let (_, response) = run(&www(), &["x"], metadata, contents);
        assert!(matches!(response.status.code(), 200 | 403 | 404 | 500));
        assert_eq!(response.content_type, "text/plain");
    }
}
