//! The copy and move orchestrator.
//!
//! A copy is one backend call. A move is a copy followed by the deletion of the source,
//! and the deletion is asked for only after the copy has succeeded: a source is never
//! deleted while its copy has failed. When the deletion fails the failure is reported,
//! and the copy stays where it is.

use vstd::prelude::*;
use vstd::string::StringExecFns;
use crate::backend::{BackendCall, BackendCallView};
use crate::env::{S3Config, S3ConfigView};
use crate::error::ErrorCategory;
use crate::key::{
    extract_bucket, extract_object_key, resolve_key, strip_leading_separator,
    trim_leading_separator,
};
use crate::metadata::{RequestHeaders, RequestHeadersView, header_string, header_text};
use crate::protocol::{
    Action, ActionView, Event, EventView, Response, ResponseView, error_response,
    failure_response, ok_response, unexpected_event, unexpected_event_error,
};

verus! {

/// What `rusoto_s3::util::encode_key` makes of a key: the key in the form in which the
/// backend takes the source of a copy.
pub uninterp spec fn encoded_key(key: Seq<char>) -> Seq<char>;

/// Calls `rusoto_s3::util::encode_key`, which percent-encodes a key for use as the source
/// of a copy. The result depends on the key alone.
#[verifier::external_body]
fn encode_key(key: &str) -> (encoded: String)
    ensures
        encoded@ == encoded_key(key@),
{
    rusoto_s3::util::encode_key(key)
}

/// Why a request names no destination.
#[derive(Clone, Copy, Debug, PartialEq, Eq, Structural)]
pub enum DestinationHeaderError {
    /// The request has no `Destination` header.
    Missing,
    /// The `Destination` header cannot be read as text.
    Invalid,
}

/// The key that a `Destination` header names: its text without the leading separator.
/// A header that is missing or cannot be read names none.
pub open spec fn destination_key(header: Option<Seq<u8>>) -> Option<Seq<char>> {
    match header_text(header) {
        Some(text) => Some(strip_leading_separator(text)),
        None => None,
    }
}

/// The locator of a copy source before it is encoded: the bucket, a separator, the key.
pub open spec fn source_locator(bucket: Seq<char>, key: Seq<char>) -> Seq<char> {
    bucket + seq!['/'] + key
}

/// The call that copies the object behind an encoded source locator to `destination`
/// in `bucket`.
pub open spec fn copy_call(
    bucket: Seq<char>,
    copy_source: Seq<char>,
    destination: Seq<char>,
) -> BackendCallView {
    BackendCallView::CopyObject { bucket, copy_source, key: destination }
}

/// The call that deletes the source of a move.
pub open spec fn delete_source_call(bucket: Seq<char>, key: Seq<char>) -> BackendCallView {
    BackendCallView::DeleteObject { bucket, key }
}

/// The response to a copy or move that names no destination.
pub open spec fn invalid_destination_response() -> ResponseView {
    failure_response(ErrorCategory::BadRequest, "Invalid Destination header"@)
}

/// Where a copy or a move stands.
#[derive(Clone, Debug, PartialEq, Eq)]
pub enum Transfer {
    /// The copy is in flight, and nothing follows it.
    Copying,
    /// The copy is in flight, and the source is to be deleted when it has succeeded.
    Moving { bucket: String, key: String },
    /// The copy has succeeded and the deletion of the source is in flight.
    Deleting,
    /// The response has been given.
    Finished,
}

/// The mathematical value of a `Transfer`.
pub enum TransferView {
    Copying,
    Moving { bucket: Seq<char>, key: Seq<char> },
    Deleting,
    Finished,
}

impl View for Transfer {
    type V = TransferView;

    open spec fn view(&self) -> TransferView {
        match *self {
            Transfer::Copying => TransferView::Copying,
            Transfer::Moving { bucket, key } => TransferView::Moving { bucket: bucket@, key: key@ },
            Transfer::Deleting => TransferView::Deleting,
            Transfer::Finished => TransferView::Finished,
        }
    }
}

/// The start of a copy of the object that `path` addresses. Without a destination the
/// request is refused at once, and the backend is not called.
pub open spec fn begin_copy(config: S3ConfigView, path: Seq<char>, headers: RequestHeadersView) -> (
    TransferView,
    ActionView,
) {
    match destination_key(headers.destination) {
        Some(destination) => (
            TransferView::Copying,
            ActionView::Call(
                copy_call(
                    config.bucket,
                    encoded_key(source_locator(config.bucket, resolve_key(config.prefix, path))),
                    destination,
                ),
            ),
        ),
        None => (TransferView::Finished, ActionView::Respond(invalid_destination_response())),
    }
}

/// The start of a move of the object that `path` addresses: the same copy, with the
/// source remembered for its deletion.
pub open spec fn begin_move(config: S3ConfigView, path: Seq<char>, headers: RequestHeadersView) -> (
    TransferView,
    ActionView,
) {
    match begin_copy(config, path, headers).0 {
        TransferView::Copying => (
            TransferView::Moving { bucket: config.bucket, key: resolve_key(config.prefix, path) },
            begin_copy(config, path, headers).1,
        ),
        _ => begin_copy(config, path, headers),
    }
}

/// One step of a copy or move: the state and the action that follow an event.
pub open spec fn transfer_step(transfer: TransferView, event: EventView) -> (
    TransferView,
    ActionView,
) {
    match transfer {
        TransferView::Copying | TransferView::Deleting => match event {
            EventView::Reply(Ok(_)) => (TransferView::Finished, ActionView::Respond(ok_response())),
            EventView::Reply(Err(error)) => (
                TransferView::Finished,
                ActionView::Respond(error_response(error)),
            ),
            _ => (TransferView::Finished, ActionView::Respond(error_response(unexpected_event()))),
        },
        TransferView::Moving { bucket, key } => match event {
            EventView::Reply(Ok(_)) => (
                TransferView::Deleting,
                ActionView::Call(delete_source_call(bucket, key)),
            ),
            EventView::Reply(Err(error)) => (
                TransferView::Finished,
                ActionView::Respond(error_response(error)),
            ),
            _ => (TransferView::Finished, ActionView::Respond(error_response(unexpected_event()))),
        },
        TransferView::Finished => (
            TransferView::Finished,
            ActionView::Respond(error_response(unexpected_event())),
        ),
    }
}

/// Reads the destination of a copy or move from the headers of the request: the text of
/// the `Destination` header without its leading separator.
pub fn extract_destination_header(headers: &RequestHeaders) -> (destination: Result<
    String,
    DestinationHeaderError,
>)
    ensures
        match destination {
            Ok(key) => destination_key(headers@.destination) == Some(key@),
            Err(DestinationHeaderError::Missing) => headers@.destination is None,
            Err(DestinationHeaderError::Invalid) => headers@.destination is Some
                && destination_key(headers@.destination) is None,
        },
{
    match &headers.destination {
        Some(raw) => match header_string(raw.as_slice()) {
            Some(text) => Ok(trim_leading_separator(text.as_str())),
            None => Err(DestinationHeaderError::Invalid),
        },
        None => Err(DestinationHeaderError::Missing),
    }
}

/// The call that copies the object behind `copy_source`, an encoded source locator, to
/// the key `destination` in `bucket`.
pub fn copy_request(bucket: String, copy_source: String, destination: String) -> (call: BackendCall)
    ensures
        call@ == copy_call(bucket@, copy_source@, destination@),
{
    BackendCall::CopyObject { bucket, copy_source, key: destination }
}

/// The source locator of the object `key` in `bucket`, encoded for the backend.
pub fn copy_source(bucket: &str, key: &str) -> (source: String)
    ensures
        source@ == encoded_key(source_locator(bucket@, key@)),
{
    let mut locator = String::from_str(bucket);
    locator.append("/");
    locator.append(key);
    proof {
        reveal_strlit("/");
        assert("/"@ =~= seq!['/']);
    }
    encode_key(locator.as_str())
}

/// The response to a copy or move that names no destination.
fn invalid_destination() -> (response: Response)
    ensures
        response@ == invalid_destination_response(),
{
    Response::failure(ErrorCategory::BadRequest, String::from_str("Invalid Destination header"))
}

impl Transfer {
    /// Starts the copy of the object that `path` addresses to the key that the
    /// `Destination` header names.
    pub fn begin_copy(config: &S3Config, path: &str, headers: &RequestHeaders) -> (started: (
        Transfer,
        Action,
    ))
        ensures
            (started.0@, started.1@) == begin_copy(config@, path@, headers@),
    {
        match extract_destination_header(headers) {
            Ok(destination) => {
                let bucket = extract_bucket(config);
                let source_key = extract_object_key(config, path);
                let source = copy_source(bucket.as_str(), source_key.as_str());
                (Transfer::Copying, Action::Call(copy_request(bucket, source, destination)))
            },
            Err(_) => (Transfer::Finished, Action::Respond(invalid_destination())),
        }
    }

    /// Starts the move of the object that `path` addresses to the key that the
    /// `Destination` header names.
    pub fn begin_move(config: &S3Config, path: &str, headers: &RequestHeaders) -> (started: (
        Transfer,
        Action,
    ))
        ensures
            (started.0@, started.1@) == begin_move(config@, path@, headers@),
    {
        let (transfer, action) = Transfer::begin_copy(config, path, headers);
        match transfer {
            Transfer::Copying => (
                Transfer::Moving {
                    bucket: extract_bucket(config),
                    key: extract_object_key(config, path),
                },
                action,
            ),
            other => (other, action),
        }
    }

    /// Whether the response has been given.
    pub fn is_finished(&self) -> (finished: bool)
        ensures
            finished == (self@ is Finished),
    {
        match self {
            Transfer::Finished => true,
            _ => false,
        }
    }

    /// Takes a copy or move one step on: hands it the event that its last action led
    /// to, and gets the state and the action that follow.
    pub fn step(self, event: Event) -> (next: (Transfer, Action))
        ensures
            (next.0@, next.1@) == transfer_step(self@, event@),
    {
        match self {
            Transfer::Copying | Transfer::Deleting => match event {
                Event::Reply(Ok(_)) => (Transfer::Finished, Action::Respond(Response::ok())),
                Event::Reply(Err(error)) => (
                    Transfer::Finished,
                    Action::Respond(Response::error(error)),
                ),
                _ => (
                    Transfer::Finished,
                    Action::Respond(Response::error(unexpected_event_error())),
                ),
            },
            Transfer::Moving { bucket, key } => match event {
                Event::Reply(Ok(_)) => (
                    Transfer::Deleting,
                    Action::Call(BackendCall::DeleteObject { bucket, key }),
                ),
                Event::Reply(Err(error)) => (
                    Transfer::Finished,
                    Action::Respond(Response::error(error)),
                ),
                _ => (
                    Transfer::Finished,
                    Action::Respond(Response::error(unexpected_event_error())),
                ),
            },
            Transfer::Finished => (
                Transfer::Finished,
                Action::Respond(Response::error(unexpected_event_error())),
            ),
        }
    }
}

} // verus!
