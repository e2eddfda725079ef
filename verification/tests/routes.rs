use aws_s3_webdav::backend::{BackendCall, BackendOutput, Reply};
use aws_s3_webdav::env::S3Config;
use aws_s3_webdav::error::{BackendError, ErrorCategory, ErrorKind};
use aws_s3_webdav::metadata::{HeaderName, ObjectMetadata, RequestHeaders};
use aws_s3_webdav::protocol::{Action, Event, Response, ResponseBody, Status};
use aws_s3_webdav::routes::{
    delete_object, dispatch, get_object, head_object, index, is_index_path, put_object, Handler,
    Method, Request,
};

fn site() -> S3Config {
    S3Config::new("bucket".to_string(), Some("site/".to_string()))
}

fn request(path: &str) -> Request {
    Request::new(path.to_string(), RequestHeaders::none())
}

fn play(started: (Handler, Action), replies: Vec<Reply>) -> (Vec<BackendCall>, Option<Response>) {
    let (mut handler, mut action) = started;
    let mut replies = replies.into_iter();
    let mut calls = Vec::new();
    loop {
        match action {
            Action::Respond(response) => return (calls, Some(response)),
            Action::ReadBody => return (calls, None),
            Action::Call(call) => {
                calls.push(call);
                match replies.next() {
                    None => return (calls, None),
                    Some(reply) => {
                        assert!(handler.can_step());
                        let next = handler.step(Event::Reply(reply));
                        handler = next.0;
                        action = next.1;
                    }
                }
            }
        }
    }
}

fn failure(kind: ErrorKind, message: &str) -> Reply {
    Err(BackendError::new(kind, message.to_string()))
}

fn object(metadata: ObjectMetadata, has_body: bool) -> Reply {
    Ok(BackendOutput::Object { metadata, has_body })
}

#[test]
fn index_is_not_implemented() {
    let (handler, action) = index(&request("/"));
    assert!(handler.is_finished());
    match action {
        Action::Respond(response) => {
            assert_eq!(response.status, Status::NotImplemented);
            assert_eq!(response.status.code(), 501);
            assert_eq!(response.headers, vec![]);
            assert_eq!(response.body, ResponseBody::Empty);
        }
        other => panic!("unexpected action {:?}", other),
    }
}

#[test]
fn get_asks_for_the_resolved_object() {
    let (handler, action) = get_object(&site(), &request("/a/b.txt"));
    assert!(!handler.is_finished());
    assert_eq!(
        action,
        Action::Call(BackendCall::GetObject { bucket: "bucket".to_string(), key: "site/a/b.txt".to_string() })
    );
}

#[test]
fn get_of_object_streams_it_with_its_headers() {
    let mut metadata = ObjectMetadata::empty();
    metadata.content_type = Some("text/plain".to_string());
    metadata.e_tag = Some("\"x\"".to_string());
    metadata.content_length = Some("3".to_string());
    let (calls, response) = play(get_object(&site(), &request("/a")), vec![object(metadata, true)]);
    assert_eq!(calls.len(), 1);
    let response = response.unwrap();
    assert_eq!(response.status, Status::Success);
    assert_eq!(
        response.headers,
        vec![
            (HeaderName::ContentLength, "3".to_string()),
            (HeaderName::ContentType, "text/plain".to_string()),
            (HeaderName::ETag, "\"x\"".to_string()),
        ]
    );
    assert_eq!(response.body, ResponseBody::Stream);
}

#[test]
fn get_of_object_without_content_is_not_found() {
    let (_, response) = play(get_object(&site(), &request("/a")), vec![object(ObjectMetadata::empty(), false)]);
    let response = response.unwrap();
    assert_eq!(response.status, Status::Error(ErrorCategory::NotFound));
    assert_eq!(response.body, ResponseBody::Text("Object Not Found".to_string()));
}

#[test]
fn get_of_missing_object_is_not_found_and_not_internal() {
    let (calls, response) =
        play(get_object(&site(), &request("/nothing")), vec![failure(ErrorKind::NoSuchKey, "no such key")]);
    assert_eq!(
        calls,
        vec![BackendCall::GetObject { bucket: "bucket".to_string(), key: "site/nothing".to_string() }]
    );
    let response = response.unwrap();
    assert_eq!(response.status, Status::Error(ErrorCategory::NotFound));
    assert_eq!(response.status.code(), 404);
    assert_eq!(response.body, ResponseBody::Text("no such key".to_string()));
}

#[test]
fn get_failures_map_to_their_categories() {
    let cases = [
        (ErrorKind::HttpDispatch, ErrorCategory::Internal),
        (ErrorKind::Credentials, ErrorCategory::Forbidden),
        (ErrorKind::Validation, ErrorCategory::BadRequest),
        (ErrorKind::Unknown, ErrorCategory::Internal),
    ];
    for (kind, category) in cases {
        let (_, response) = play(get_object(&site(), &request("/a")), vec![failure(kind, "m")]);
        assert_eq!(response.unwrap().status, Status::Error(category));
    }
}

#[test]
fn head_makes_one_read_only_call() {
    let (calls, response) =
        play(head_object(&site(), &request("/a")), vec![object(ObjectMetadata::empty(), false)]);
    assert_eq!(calls, vec![BackendCall::HeadObject { bucket: "bucket".to_string(), key: "site/a".to_string() }]);
    assert_eq!(response.unwrap().status, Status::Success);
}

#[test]
fn head_answers_with_headers_and_no_body() {
    let mut metadata = ObjectMetadata::empty();
    metadata.content_length = Some("1024".to_string());
    metadata.last_modified = Some("Wed, 21 Oct 2015 07:28:00 GMT".to_string());
    let (_, response) = play(head_object(&site(), &request("/a")), vec![object(metadata, true)]);
    let response = response.unwrap();
    assert_eq!(response.status, Status::Success);
    assert_eq!(
        response.headers,
        vec![
            (HeaderName::ContentLength, "1024".to_string()),
            (HeaderName::LastModified, "Wed, 21 Oct 2015 07:28:00 GMT".to_string()),
        ]
    );
    assert_eq!(response.body, ResponseBody::Empty);
}

#[test]
fn head_of_missing_object_is_not_found() {
    let (calls, response) = play(head_object(&site(), &request("/a")), vec![failure(ErrorKind::NoSuchKey, "gone")]);
    assert_eq!(calls.len(), 1);
    assert_eq!(response.unwrap().status, Status::Error(ErrorCategory::NotFound));
}

#[test]
fn head_twice_makes_the_same_call() {
    let first = play(head_object(&site(), &request("/a")), vec![object(ObjectMetadata::empty(), false)]);
    let second = play(head_object(&site(), &request("/a")), vec![object(ObjectMetadata::empty(), false)]);
    assert_eq!(first, second);
}

#[test]
fn delete_deletes_the_resolved_object() {
    let (calls, response) = play(delete_object(&site(), &request("/old.txt")), vec![Ok(BackendOutput::Done)]);
    assert_eq!(
        calls,
        vec![BackendCall::DeleteObject { bucket: "bucket".to_string(), key: "site/old.txt".to_string() }]
    );
    assert_eq!(response.unwrap(), Response::ok());
}

#[test]
fn delete_failure_is_reported() {
    let (_, response) =
        play(delete_object(&site(), &request("/old.txt")), vec![failure(ErrorKind::Credentials, "denied")]);
    let response = response.unwrap();
    assert_eq!(response.status, Status::Error(ErrorCategory::Forbidden));
    assert_eq!(response.body, ResponseBody::Text("denied".to_string()));
}

#[test]
fn event_that_answers_nothing_is_an_internal_failure() {
    let (handler, _) = get_object(&site(), &request("/a"));
    let (handler, action) = handler.step(Event::BodyEnd);
    assert!(handler.is_finished());
    match action {
        Action::Respond(response) => {
            assert_eq!(response.status, Status::Error(ErrorCategory::Internal));
            assert_eq!(response.body, ResponseBody::Text("Unexpected event".to_string()));
        }
        other => panic!("unexpected action {:?}", other),
    }
    let (_, action) = handler.step(Event::Reply(Ok(BackendOutput::Done)));
    match action {
        Action::Respond(response) => assert_eq!(response.status, Status::Error(ErrorCategory::Internal)),
        other => panic!("unexpected action {:?}", other),
    }
}

#[test]
fn get_with_reply_of_another_call_is_an_internal_failure() {
    let (_, response) = play(get_object(&site(), &request("/a")), vec![Ok(BackendOutput::Done)]);
    assert_eq!(response.unwrap().status, Status::Error(ErrorCategory::Internal));
}

#[test]
fn index_path_is_the_single_separator() {
    assert!(is_index_path("/"));
    assert!(!is_index_path(""));
    assert!(!is_index_path("//"));
    assert!(!is_index_path("/a"));
}

#[test]
fn dispatch_serves_the_index_for_every_verb() {
    for method in [Method::Get, Method::Head, Method::Put, Method::Delete, Method::Copy, Method::Move] {
        let (handler, action) = dispatch(&site(), method, &request("/"));
        assert!(handler.is_finished());
        assert_eq!(action, Action::Respond(Response::not_implemented()));
    }
}

#[test]
fn dispatch_starts_the_handler_of_the_verb() {
    let config = site();
    let r = request("/x");
    assert_eq!(dispatch(&config, Method::Get, &r).1, get_object(&config, &r).1);
    assert_eq!(dispatch(&config, Method::Head, &r).1, head_object(&config, &r).1);
    assert_eq!(dispatch(&config, Method::Delete, &r).1, delete_object(&config, &r).1);
    assert_eq!(dispatch(&config, Method::Put, &r).1, put_object(&config, &r).1);
    assert_eq!(
        dispatch(&config, Method::Copy, &r).1,
        Action::Respond(Response::failure(ErrorCategory::BadRequest, "Invalid Destination header".to_string()))
    );
}

#[test]
fn put_opens_an_upload_with_the_metadata_of_the_request() {
    let mut headers = RequestHeaders::none();
    headers.content_type = Some(b"application/json".to_vec());
    headers.cache_control = Some(b"no-store".to_vec());
    headers.expires = Some(vec![0xff]);
    let (_, action) = put_object(&site(), &Request::new("/doc.json".to_string(), headers));
    let mut metadata = ObjectMetadata::empty();
    metadata.content_type = Some("application/json".to_string());
    metadata.cache_control = Some("no-store".to_string());
    assert_eq!(
        action,
        Action::Call(BackendCall::CreateMultipartUpload {
            bucket: "bucket".to_string(),
            key: "site/doc.json".to_string(),
            metadata,
        })
    );
}
