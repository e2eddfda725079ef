use aws_s3_webdav::backend::{BackendCall, BackendOutput, CompletedPart, Reply};
use aws_s3_webdav::env::S3Config;
use aws_s3_webdav::error::{BackendError, ErrorCategory, ErrorKind};
use aws_s3_webdav::key::ResolvedTarget;
use aws_s3_webdav::metadata::{ObjectMetadata, RequestHeaders};
use aws_s3_webdav::protocol::{Action, Event, Response, ResponseBody, Status};
use aws_s3_webdav::routes::{put_object, Handler, Request};
use aws_s3_webdav::upload::{Upload, PART_SIZE};

enum Read {
    Piece(Vec<u8>),
    End,
    Failed,
}

struct Outcome {
    calls: Vec<BackendCall>,
    reads: usize,
    response: Option<Response>,
}

fn play_upload(started: (Handler, Action), body: Vec<Read>, replies: Vec<Reply>) -> Outcome {
    let (mut handler, mut action) = started;
    let mut body = body.into_iter();
    let mut replies = replies.into_iter();
    let mut calls = Vec::new();
    let mut reads = 0;
    loop {
        let event = match action {
            Action::Respond(response) => return Outcome { calls, reads, response: Some(response) },
            Action::ReadBody => match body.next() {
                None => return Outcome { calls, reads, response: None },
                Some(Read::Piece(bytes)) => Event::Body(bytes),
                Some(Read::End) => Event::BodyEnd,
                Some(Read::Failed) => Event::BodyFailed,
            },
            Action::Call(call) => {
                calls.push(call);
                match replies.next() {
                    None => return Outcome { calls, reads, response: None },
                    Some(reply) => Event::Reply(reply),
                }
            }
        };
        if let Event::Body(_) | Event::BodyEnd | Event::BodyFailed = event {
            reads += 1;
        }
        assert!(handler.can_step());
        let next = handler.step(event);
        handler = next.0;
        action = next.1;
    }
}

fn target() -> ResolvedTarget {
    ResolvedTarget { bucket: "bucket".to_string(), key: "site/file.bin".to_string() }
}

fn typed() -> ObjectMetadata {
    let mut metadata = ObjectMetadata::empty();
    metadata.content_type = Some("application/octet-stream".to_string());
    metadata
}

fn start(chunk_size: usize) -> (Handler, Action) {
    let (upload, action) = Upload::begin(target(), typed(), chunk_size);
    (Handler::Put(upload), action)
}

fn whole(pieces: Vec<Vec<u8>>) -> Vec<Read> {
    let mut body: Vec<Read> = pieces.into_iter().map(Read::Piece).collect();
    body.push(Read::End);
    body
}

fn created() -> Reply {
    Ok(BackendOutput::UploadCreated { upload_id: "upload-1".to_string() })
}

fn stored(e_tag: &str) -> Reply {
    Ok(BackendOutput::PartUploaded { e_tag: e_tag.to_string() })
}

fn done() -> Reply {
    Ok(BackendOutput::Done)
}

fn failed(kind: ErrorKind, message: &str) -> Reply {
    Err(BackendError::new(kind, message.to_string()))
}

fn create_call() -> BackendCall {
    BackendCall::CreateMultipartUpload {
        bucket: "bucket".to_string(),
        key: "site/file.bin".to_string(),
        metadata: typed(),
    }
}

fn part_call(part_number: i64, body: &[u8]) -> BackendCall {
    BackendCall::UploadPart {
        bucket: "bucket".to_string(),
        key: "site/file.bin".to_string(),
        upload_id: "upload-1".to_string(),
        part_number,
        body: body.to_vec(),
    }
}

fn complete_call(e_tags: &[&str]) -> BackendCall {
    BackendCall::CompleteMultipartUpload {
        bucket: "bucket".to_string(),
        key: "site/file.bin".to_string(),
        upload_id: "upload-1".to_string(),
        parts: e_tags
            .iter()
            .enumerate()
            .map(|(i, e_tag)| CompletedPart { part_number: i as i64 + 1, e_tag: e_tag.to_string() })
            .collect(),
    }
}

fn abort_call() -> BackendCall {
    BackendCall::AbortMultipartUpload {
        bucket: "bucket".to_string(),
        key: "site/file.bin".to_string(),
        upload_id: "upload-1".to_string(),
    }
}

fn store_empty_call() -> BackendCall {
    BackendCall::PutObject {
        bucket: "bucket".to_string(),
        key: "site/file.bin".to_string(),
        body: vec![],
        metadata: typed(),
    }
}

#[test]
fn part_size_is_five_mebibytes() {
    assert_eq!(PART_SIZE, 5 * 1024 * 1024);
    assert_eq!(PART_SIZE, 5_242_880);
}

#[test]
fn upload_begins_by_opening_the_upload() {
    let (upload, action) = Upload::begin(target(), typed(), 4);
    assert_eq!(action, Action::Call(create_call()));
    assert_eq!(upload.part_count(), 0);
    assert!(!upload.is_finished());
    assert_eq!(upload.session().bucket, "bucket");
    assert_eq!(upload.session().key, "site/file.bin");
    assert_eq!(upload.session().upload_id, "");
    assert_eq!(upload.session().parts, vec![]);
}

#[test]
fn upload_that_is_not_opened_ends_with_the_failure() {
    let outcome = play_upload(start(4), whole(vec![b"abc".to_vec()]), vec![failed(ErrorKind::Credentials, "no")]);
    assert_eq!(outcome.calls, vec![create_call()]);
    assert_eq!(outcome.reads, 0);
    let response = outcome.response.unwrap();
    assert_eq!(response.status, Status::Error(ErrorCategory::Forbidden));
    assert_eq!(response.body, ResponseBody::Text("no".to_string()));
}

#[test]
fn empty_body_is_stored_as_empty_object() {
    let outcome = play_upload(start(4), whole(vec![]), vec![created(), done(), done()]);
    assert_eq!(outcome.calls, vec![create_call(), abort_call(), store_empty_call()]);
    assert_eq!(outcome.response, Some(Response::ok()));
}

#[test]
fn empty_body_in_empty_pieces_is_stored_as_empty_object() {
    let outcome = play_upload(start(4), whole(vec![vec![], vec![], vec![]]), vec![created(), done(), done()]);
    assert_eq!(outcome.calls, vec![create_call(), abort_call(), store_empty_call()]);
    assert_eq!(outcome.reads, 4);
    assert_eq!(outcome.response, Some(Response::ok()));
}

#[test]
fn empty_body_never_completes_or_uploads_a_part() {
    let outcome = play_upload(start(4), whole(vec![]), vec![created(), done(), done()]);
    let creates = outcome.calls.iter().filter(|c| matches!(c, BackendCall::CreateMultipartUpload { .. })).count();
    let parts = outcome.calls.iter().filter(|c| matches!(c, BackendCall::UploadPart { .. })).count();
    let aborts = outcome.calls.iter().filter(|c| matches!(c, BackendCall::AbortMultipartUpload { .. })).count();
    let puts = outcome.calls.iter().filter(|c| matches!(c, BackendCall::PutObject { .. })).count();
    let completes =
        outcome.calls.iter().filter(|c| matches!(c, BackendCall::CompleteMultipartUpload { .. })).count();
    assert_eq!((creates, parts, aborts, puts, completes), (1, 0, 1, 1, 0));
}

#[test]
fn empty_body_is_stored_even_when_the_abort_fails() {
    let outcome =
        play_upload(start(4), whole(vec![]), vec![created(), failed(ErrorKind::Unknown, "abort failed"), done()]);
    assert_eq!(outcome.calls, vec![create_call(), abort_call(), store_empty_call()]);
    assert_eq!(outcome.response, Some(Response::ok()));
}

#[test]
fn empty_body_reports_a_failed_store() {
    let outcome =
        play_upload(start(4), whole(vec![]), vec![created(), done(), failed(ErrorKind::Validation, "bad")]);
    assert_eq!(outcome.calls.len(), 3);
    let response = outcome.response.unwrap();
    assert_eq!(response.status, Status::Error(ErrorCategory::BadRequest));
    assert_eq!(response.body, ResponseBody::Text("bad".to_string()));
}

#[test]
fn body_smaller_than_a_chunk_is_one_part() {
    let outcome = play_upload(start(4), whole(vec![b"abc".to_vec()]), vec![created(), stored("e1"), done()]);
    assert_eq!(outcome.calls, vec![create_call(), part_call(1, b"abc"), complete_call(&["e1"])]);
    assert_eq!(outcome.response, Some(Response::ok()));
}

#[test]
fn body_of_exactly_one_chunk_is_one_part() {
    let outcome = play_upload(start(4), whole(vec![b"abcd".to_vec()]), vec![created(), stored("e1"), done()]);
    assert_eq!(outcome.calls, vec![create_call(), part_call(1, b"abcd"), complete_call(&["e1"])]);
}

#[test]
fn body_larger_than_one_chunk_is_cut_into_numbered_parts() {
    let outcome = play_upload(
        start(4),
        whole(vec![b"abcdefghij".to_vec()]),
        vec![created(), stored("e1"), stored("e2"), stored("e3"), done()],
    );
    assert_eq!(
        outcome.calls,
        vec![
            create_call(),
            part_call(1, b"abcd"),
            part_call(2, b"efgh"),
            part_call(3, b"ij"),
            complete_call(&["e1", "e2", "e3"]),
        ]
    );
    assert_eq!(outcome.response, Some(Response::ok()));
}

#[test]
fn number_of_parts_is_the_size_over_the_chunk_size_rounded_up() {
    for size in 1usize..=25 {
        for chunk in 1usize..=7 {
            let body: Vec<u8> = (0..size).map(|i| i as u8).collect();
            let expected = (size + chunk - 1) / chunk;
            let mut replies = vec![created()];
            for i in 0..expected {
                replies.push(stored(&format!("e{}", i)));
            }
            replies.push(done());
            let outcome = play_upload(start(chunk), whole(vec![body.clone()]), replies);
            assert_eq!(outcome.calls.len(), expected + 2);
            let mut joined = Vec::new();
            for (i, call) in outcome.calls[1..=expected].iter().enumerate() {
                match call {
                    BackendCall::UploadPart { part_number, body, .. } => {
                        assert_eq!(*part_number, i as i64 + 1);
                        if i + 1 < expected {
                            assert_eq!(body.len(), chunk);
                        } else {
                            assert!(!body.is_empty() && body.len() <= chunk);
                        }
                        joined.extend_from_slice(body);
                    }
                    other => panic!("unexpected call {:?}", other),
                }
            }
            assert_eq!(joined, body);
            assert!(matches!(outcome.calls[expected + 1], BackendCall::CompleteMultipartUpload { .. }));
            assert_eq!(outcome.response, Some(Response::ok()));
        }
    }
}

#[test]
fn chunks_do_not_depend_on_how_the_body_arrives() {
    let pieces = vec![b"a".to_vec(), vec![], b"bcdef".to_vec(), b"g".to_vec(), b"hij".to_vec()];
    let outcome = play_upload(
        start(4),
        whole(pieces),
        vec![created(), stored("e1"), stored("e2"), stored("e3"), done()],
    );
    assert_eq!(
        outcome.calls,
        vec![
            create_call(),
            part_call(1, b"abcd"),
            part_call(2, b"efgh"),
            part_call(3, b"ij"),
            complete_call(&["e1", "e2", "e3"]),
        ]
    );
}

#[test]
fn piece_of_several_chunks_is_uploaded_without_reading_on() {
    let (handler, action) = start(2);
    let (handler, action) = match action {
        Action::Call(_) => handler.step(Event::Reply(created())),
        other => panic!("unexpected action {:?}", other),
    };
    assert_eq!(action, Action::ReadBody);
    let (handler, action) = handler.step(Event::Body(b"abcde".to_vec()));
    assert_eq!(action, Action::Call(part_call(1, b"ab")));
    let (handler, action) = handler.step(Event::Reply(stored("e1")));
    assert_eq!(action, Action::Call(part_call(2, b"cd")));
    let (handler, action) = handler.step(Event::Reply(stored("e2")));
    assert_eq!(action, Action::ReadBody);
    let (handler, action) = handler.step(Event::BodyEnd);
    assert_eq!(action, Action::Call(part_call(3, b"e")));
    let (handler, action) = handler.step(Event::Reply(stored("e3")));
    assert_eq!(action, Action::Call(complete_call(&["e1", "e2", "e3"])));
    let (handler, action) = handler.step(Event::Reply(done()));
    assert_eq!(action, Action::Respond(Response::ok()));
    assert!(handler.is_finished());
}

#[test]
fn engine_reads_on_until_a_chunk_is_full() {
    let (handler, _) = start(4);
    let (handler, action) = handler.step(Event::Reply(created()));
    assert_eq!(action, Action::ReadBody);
    let (handler, action) = handler.step(Event::Body(b"ab".to_vec()));
    assert_eq!(action, Action::ReadBody);
    let (handler, action) = handler.step(Event::Body(b"c".to_vec()));
    assert_eq!(action, Action::ReadBody);
    let (_, action) = handler.step(Event::Body(b"d".to_vec()));
    assert_eq!(action, Action::Call(part_call(1, b"abcd")));
}

#[test]
fn session_collects_the_stored_parts_in_order() {
    let (upload, _) = Upload::begin(target(), typed(), 2);
    let (upload, _) = upload.step(Event::Reply(created()));
    assert_eq!(upload.session().upload_id, "upload-1");
    let (upload, _) = upload.step(Event::Body(b"abcd".to_vec()));
    assert_eq!(upload.part_count(), 0);
    let (upload, _) = upload.step(Event::Reply(stored("first")));
    assert_eq!(upload.part_count(), 1);
    let (upload, _) = upload.step(Event::Reply(stored("second")));
    assert_eq!(
        upload.session().parts,
        vec![
            CompletedPart { part_number: 1, e_tag: "first".to_string() },
            CompletedPart { part_number: 2, e_tag: "second".to_string() },
        ]
    );
}

#[test]
fn failed_part_aborts_once_and_reports_the_failure() {
    let outcome = play_upload(
        start(4),
        whole(vec![b"abcdefghij".to_vec()]),
        vec![created(), stored("e1"), failed(ErrorKind::Credentials, "token expired"), done()],
    );
    assert_eq!(
        outcome.calls,
        vec![create_call(), part_call(1, b"abcd"), part_call(2, b"efgh"), abort_call()]
    );
    let response = outcome.response.unwrap();
    assert_eq!(response.status, Status::Error(ErrorCategory::Forbidden));
    assert_eq!(response.body, ResponseBody::Text("token expired".to_string()));
}

#[test]
fn failed_part_is_reported_whatever_becomes_of_the_abort() {
    for kind in [ErrorKind::HttpDispatch, ErrorKind::Credentials, ErrorKind::Validation, ErrorKind::Unknown] {
        let with_good_abort = play_upload(
            start(4),
            whole(vec![b"abcdef".to_vec()]),
            vec![created(), failed(kind, "part failed"), done()],
        );
        let with_bad_abort = play_upload(
            start(4),
            whole(vec![b"abcdef".to_vec()]),
            vec![created(), failed(kind, "part failed"), failed(ErrorKind::NoSuchKey, "abort failed")],
        );
        assert_eq!(with_good_abort.calls, vec![create_call(), part_call(1, b"abcd"), abort_call()]);
        assert_eq!(with_bad_abort.calls, with_good_abort.calls);
        assert_eq!(with_bad_abort.response, with_good_abort.response);
        let response = with_good_abort.response.unwrap();
        assert_eq!(response.status, Status::Error(kind.category()));
        assert_eq!(response.body, ResponseBody::Text("part failed".to_string()));
    }
}

#[test]
fn failed_last_part_aborts() {
    let outcome = play_upload(
        start(4),
        whole(vec![b"abcdef".to_vec()]),
        vec![created(), stored("e1"), failed(ErrorKind::Unknown, "boom"), done()],
    );
    assert_eq!(outcome.calls, vec![create_call(), part_call(1, b"abcd"), part_call(2, b"ef"), abort_call()]);
    assert_eq!(outcome.response.unwrap().status, Status::Error(ErrorCategory::Internal));
}

#[test]
fn failed_completion_is_reported() {
    let outcome = play_upload(
        start(4),
        whole(vec![b"abc".to_vec()]),
        vec![created(), stored("e1"), failed(ErrorKind::HttpDispatch, "timeout")],
    );
    assert_eq!(outcome.calls, vec![create_call(), part_call(1, b"abc"), complete_call(&["e1"])]);
    let response = outcome.response.unwrap();
    assert_eq!(response.status, Status::Error(ErrorCategory::Internal));
    assert_eq!(response.body, ResponseBody::Text("timeout".to_string()));
}

#[test]
fn broken_body_aborts_the_upload() {
    let outcome = play_upload(
        start(4),
        vec![Read::Piece(b"abcdef".to_vec()), Read::Failed],
        vec![created(), stored("e1"), done()],
    );
    assert_eq!(outcome.calls, vec![create_call(), part_call(1, b"abcd"), abort_call()]);
    let response = outcome.response.unwrap();
    assert_eq!(response.status, Status::Error(ErrorCategory::Internal));
    assert_eq!(response.body, ResponseBody::Text("Something went wrong with HttpRequest stream".to_string()));
}

#[test]
fn body_that_breaks_at_once_aborts_the_upload() {
    let outcome = play_upload(start(4), vec![Read::Failed], vec![created(), failed(ErrorKind::Unknown, "x")]);
    assert_eq!(outcome.calls, vec![create_call(), abort_call()]);
    assert_eq!(outcome.response.unwrap().status, Status::Error(ErrorCategory::Internal));
}

#[test]
fn reply_while_reading_aborts_the_upload() {
    let (handler, _) = start(4);
    let (handler, _) = handler.step(Event::Reply(created()));
    let (handler, action) = handler.step(Event::Reply(done()));
    assert_eq!(action, Action::Call(abort_call()));
    let (handler, action) = handler.step(Event::Reply(done()));
    match action {
        Action::Respond(response) => {
            assert_eq!(response.status, Status::Error(ErrorCategory::Internal));
            assert_eq!(response.body, ResponseBody::Text("Unexpected event".to_string()));
        }
        other => panic!("unexpected action {:?}", other),
    }
    assert!(handler.is_finished());
}

#[test]
fn put_cuts_the_body_at_five_mebibytes() {
    let config = S3Config::new("bucket".to_string(), None);
    let request = Request::new("/big.bin".to_string(), RequestHeaders::none());
    let mut body = vec![7u8; PART_SIZE];
    body.push(9);
    let pieces: Vec<Vec<u8>> = body.chunks(1_000_000).map(|c| c.to_vec()).collect();
    let outcome = play_upload(
        put_object(&config, &request),
        whole(pieces),
        vec![created(), stored("e1"), stored("e2"), done()],
    );
    assert_eq!(outcome.calls.len(), 4);
    match &outcome.calls[1] {
        BackendCall::UploadPart { bucket, key, upload_id, part_number, body } => {
            assert_eq!(bucket, "bucket");
            assert_eq!(key, "big.bin");
            assert_eq!(upload_id, "upload-1");
            assert_eq!(*part_number, 1);
            assert_eq!(body.len(), 5 * 1024 * 1024);
            assert!(body.iter().all(|b| *b == 7));
        }
        other => panic!("unexpected call {:?}", other),
    }
    match &outcome.calls[2] {
        BackendCall::UploadPart { part_number, body, .. } => {
            assert_eq!(*part_number, 2);
            assert_eq!(body, &vec![9u8]);
        }
        other => panic!("unexpected call {:?}", other),
    }
    match &outcome.calls[3] {
        BackendCall::CompleteMultipartUpload { parts, .. } => assert_eq!(
            parts,
            &vec![
                CompletedPart { part_number: 1, e_tag: "e1".to_string() },
                CompletedPart { part_number: 2, e_tag: "e2".to_string() },
            ]
        ),
        other => panic!("unexpected call {:?}", other),
    }
    assert_eq!(outcome.response, Some(Response::ok()));
}

#[test]
fn put_of_exactly_five_mebibytes_is_one_part() {
    let config = S3Config::new("bucket".to_string(), None);
    let request = Request::new("/big.bin".to_string(), RequestHeaders::none());
    let outcome = play_upload(
        put_object(&config, &request),
        whole(vec![vec![1u8; PART_SIZE]]),
        vec![created(), stored("e1"), done()],
    );
    assert_eq!(outcome.calls.len(), 3);
    assert!(matches!(&outcome.calls[1], BackendCall::UploadPart { part_number: 1, body, .. } if body.len() == PART_SIZE));
    assert!(matches!(&outcome.calls[2], BackendCall::CompleteMultipartUpload { parts, .. } if parts.len() == 1));
}

#[test]
fn put_of_empty_body_stores_an_empty_object_with_the_metadata() {
    let config = S3Config::new("bucket".to_string(), Some("p/".to_string()));
    let mut headers = RequestHeaders::none();
    headers.content_type = Some(b"text/plain".to_vec());
    let request = Request::new("/empty.txt".to_string(), headers);
    let outcome = play_upload(put_object(&config, &request), whole(vec![]), vec![created(), done(), done()]);
    let mut metadata = ObjectMetadata::empty();
    metadata.content_type = Some("text/plain".to_string());
    assert_eq!(
        outcome.calls,
        vec![
            BackendCall::CreateMultipartUpload {
                bucket: "bucket".to_string(),
                key: "p/empty.txt".to_string(),
                metadata: metadata.clone(),
            },
            BackendCall::AbortMultipartUpload {
                bucket: "bucket".to_string(),
                key: "p/empty.txt".to_string(),
                upload_id: "upload-1".to_string(),
            },
            BackendCall::PutObject {
                bucket: "bucket".to_string(),
                key: "p/empty.txt".to_string(),
                body: vec![],
                metadata,
            },
        ]
    );
    assert_eq!(outcome.response, Some(Response::ok()));
}
