use aws_s3_webdav::error::{BackendError, ErrorCategory, ErrorKind};
use aws_s3_webdav::protocol::{Response, ResponseBody, Status};

#[test]
fn missing_object_is_not_found() {
    assert_eq!(ErrorKind::NoSuchKey.category(), ErrorCategory::NotFound);
}

#[test]
fn credentials_failure_is_forbidden() {
    assert_eq!(ErrorKind::Credentials.category(), ErrorCategory::Forbidden);
}

#[test]
fn validation_failure_is_bad_request() {
    assert_eq!(ErrorKind::Validation.category(), ErrorCategory::BadRequest);
}

#[test]
fn dispatch_failure_is_internal() {
    assert_eq!(ErrorKind::HttpDispatch.category(), ErrorCategory::Internal);
}

#[test]
fn unknown_failure_is_internal() {
    assert_eq!(ErrorKind::Unknown.category(), ErrorCategory::Internal);
}

#[test]
fn object_in_cold_storage_is_forbidden() {
    assert_eq!(ErrorKind::ObjectNotInActiveTier.category(), ErrorCategory::Forbidden);
}

#[test]
fn mapping_is_the_same_on_every_call() {
    let kinds = [
        ErrorKind::NoSuchKey,
        ErrorKind::HttpDispatch,
        ErrorKind::Credentials,
        ErrorKind::Validation,
        ErrorKind::ObjectNotInActiveTier,
        ErrorKind::Unknown,
    ];
    for kind in kinds {
        let first = kind.category();
        for _ in 0..3 {
            assert_eq!(kind.category(), first);
        }
    }
}

#[test]
fn message_does_not_change_the_category() {
    let a = BackendError::new(ErrorKind::Credentials, "expired".to_string());
    let b = BackendError::new(ErrorKind::Credentials, "NoSuchKey: not found".to_string());
    assert_eq!(a.category(), ErrorCategory::Forbidden);
    assert_eq!(b.category(), ErrorCategory::Forbidden);
}

#[test]
fn categories_have_their_status_codes() {
    assert_eq!(ErrorCategory::NotFound.status_code(), 404);
    assert_eq!(ErrorCategory::Forbidden.status_code(), 403);
    assert_eq!(ErrorCategory::BadRequest.status_code(), 400);
    assert_eq!(ErrorCategory::Internal.status_code(), 500);
}

#[test]
fn statuses_have_their_codes() {
    assert_eq!(Status::Success.code(), 200);
    assert_eq!(Status::NotImplemented.code(), 501);
    assert_eq!(Status::Error(ErrorCategory::NotFound).code(), 404);
    assert_eq!(Status::Error(ErrorCategory::Internal).code(), 500);
}

#[test]
fn error_response_carries_category_and_message() {
    let response = Response::error(BackendError::new(ErrorKind::Validation, "bad key".to_string()));
    assert_eq!(response.status, Status::Error(ErrorCategory::BadRequest));
    assert_eq!(response.headers, vec![]);
    assert_eq!(response.body, ResponseBody::Text("bad key".to_string()));
}

#[test]
fn ok_response_is_empty() {
    let response = Response::ok();
    assert_eq!(response.status, Status::Success);
    assert_eq!(response.headers, vec![]);
    assert_eq!(response.body, ResponseBody::Empty);
}

#[test]
fn duplicate_of_error_is_equal() {
    let error = BackendError::new(ErrorKind::Unknown, "boom".to_string());
    assert_eq!(error.duplicate(), error);
}
