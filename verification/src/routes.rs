//! The request dispatcher: one handler for each verb that the gateway serves.
//!
//! A handler is started from a request and says what is to be done first. Whoever runs
//! it does that, and steps the handler with what came of it, until the handler responds:
//!
//! - `Action::Call`: make the backend call, then step with `Event::Reply`;
//! - `Action::ReadBody`: read the next piece of the request body, then step with
//!   `Event::Body`, `Event::BodyEnd` or `Event::BodyFailed`;
//! - `Action::Respond`: send the response; the handler is finished.

use vstd::prelude::*;
use vstd::string::StringExecFns;
use crate::backend::{BackendCall, BackendCallView, BackendOutput, BackendOutputView};
use crate::env::{S3Config, S3ConfigView};
use crate::error::ErrorCategory;
use crate::key::{extract_bucket, extract_object_key, resolve, resolve_key, resolve_target};
use crate::metadata::{ObjectMetadata, RequestHeaders, RequestHeadersView, metadata_from_headers};
use crate::protocol::{
    Action, ActionView, Event, EventView, Response, ResponseView, error_response,
    failure_response, not_implemented_response, object_response, ok_response, unexpected_event,
    unexpected_event_error,
};
use crate::transfer::{Transfer, TransferView, begin_copy, begin_move, transfer_step};
use crate::upload::{
    PART_SIZE, Upload, UploadView, begin_upload, law_step_keeps_invariant, upload_inv, upload_step,
};

verus! {

/// What a handler reads of a request: its path, and the headers that the gateway knows.
#[derive(Clone, Debug, PartialEq, Eq)]
pub struct Request {
    pub path: String,
    pub headers: RequestHeaders,
}

/// The mathematical value of a `Request`.
pub struct RequestView {
    pub path: Seq<char>,
    pub headers: RequestHeadersView,
}

impl View for Request {
    type V = RequestView;

    open spec fn view(&self) -> RequestView {
        RequestView { path: self.path@, headers: self.headers@ }
    }
}

impl Request {
    /// A request for `path` with the given headers.
    pub fn new(path: String, headers: RequestHeaders) -> (request: Request)
        ensures
            request@ == (RequestView { path: path@, headers: headers@ }),
    {
        Request { path, headers }
    }
}

/// The verbs that the gateway serves.
#[derive(Clone, Copy, Debug, PartialEq, Eq, Structural)]
pub enum Method {
    Get,
    Head,
    Put,
    Delete,
    Copy,
    Move,
}

/// The state of the handler of one request.
#[derive(Debug)]
pub enum Handler {
    /// A `GetObject` call is in flight.
    Get,
    /// A `HeadObject` call is in flight.
    Head,
    /// A `DeleteObject` call is in flight.
    Delete,
    /// A copy or a move is under way.
    Transfer(Transfer),
    /// An upload is under way.
    Put(Upload),
    /// The response has been given.
    Finished,
}

/// The mathematical value of a `Handler`.
pub enum HandlerView {
    Get,
    Head,
    Delete,
    Transfer(TransferView),
    Put(UploadView),
    Finished,
}

impl View for Handler {
    type V = HandlerView;

    open spec fn view(&self) -> HandlerView {
        match *self {
            Handler::Get => HandlerView::Get,
            Handler::Head => HandlerView::Head,
            Handler::Delete => HandlerView::Delete,
            Handler::Transfer(transfer) => HandlerView::Transfer(transfer@),
            Handler::Put(upload) => HandlerView::Put(upload@),
            Handler::Finished => HandlerView::Finished,
        }
    }
}

/// The path of the index of the gateway.
pub open spec fn index_path() -> Seq<char> {
    seq!['/']
}

/// The response to a request for an object that the backend has, but without content.
pub open spec fn object_not_found_response() -> ResponseView {
    failure_response(ErrorCategory::NotFound, "Object Not Found"@)
}

/// A handler that is over as soon as it starts, with the given response.
pub open spec fn respond_at_once(response: ResponseView) -> (HandlerView, ActionView) {
    (HandlerView::Finished, ActionView::Respond(response))
}

/// The handler of a request for the index: not implemented.
pub open spec fn index_handler() -> (HandlerView, ActionView) {
    respond_at_once(not_implemented_response())
}

/// The handler of a GET: it asks the backend for the object that the path addresses.
pub open spec fn get_handler(config: S3ConfigView, request: RequestView) -> (
    HandlerView,
    ActionView,
) {
    (
        HandlerView::Get,
        ActionView::Call(
            BackendCallView::GetObject {
                bucket: config.bucket,
                key: resolve_key(config.prefix, request.path),
            },
        ),
    )
}

/// The handler of a HEAD: it asks the backend for the metadata of the object.
pub open spec fn head_handler(config: S3ConfigView, request: RequestView) -> (
    HandlerView,
    ActionView,
) {
    (
        HandlerView::Head,
        ActionView::Call(
            BackendCallView::HeadObject {
                bucket: config.bucket,
                key: resolve_key(config.prefix, request.path),
            },
        ),
    )
}

/// The handler of a DELETE: it asks the backend to delete the object.
pub open spec fn delete_handler(config: S3ConfigView, request: RequestView) -> (
    HandlerView,
    ActionView,
) {
    (
        HandlerView::Delete,
        ActionView::Call(
            BackendCallView::DeleteObject {
                bucket: config.bucket,
                key: resolve_key(config.prefix, request.path),
            },
        ),
    )
}

/// The handler of a PUT: an upload of the request body to the object that the path
/// addresses, with the metadata that the request headers describe, in chunks of
/// `PART_SIZE` bytes.
pub open spec fn put_handler(config: S3ConfigView, request: RequestView) -> (
    HandlerView,
    ActionView,
) {
    let started = begin_upload(
        resolve_target(config, request.path),
        metadata_from_headers(request.headers),
        PART_SIZE as nat,
    );
    (HandlerView::Put(started.0), started.1)
}

/// The handler of a COPY.
pub open spec fn copy_handler(config: S3ConfigView, request: RequestView) -> (
    HandlerView,
    ActionView,
) {
    let started = begin_copy(config, request.path, request.headers);
    (HandlerView::Transfer(started.0), started.1)
}

/// The handler of a MOVE.
pub open spec fn move_handler(config: S3ConfigView, request: RequestView) -> (
    HandlerView,
    ActionView,
) {
    let started = begin_move(config, request.path, request.headers);
    (HandlerView::Transfer(started.0), started.1)
}

/// The handler that serves a request: the index handler for the index path, whatever
/// the verb, and the handler of the verb for every other path.
pub open spec fn handler_for(config: S3ConfigView, method: Method, request: RequestView) -> (
    HandlerView,
    ActionView,
) {
    if request.path == index_path() {
        index_handler()
    } else {
        match method {
            Method::Get => get_handler(config, request),
            Method::Head => head_handler(config, request),
            Method::Put => put_handler(config, request),
            Method::Delete => delete_handler(config, request),
            Method::Copy => copy_handler(config, request),
            Method::Move => move_handler(config, request),
        }
    }
}

/// One step of a handler: the state and the action that follow an event.
///
/// A GET answers with the object's metadata as headers and its content as body; an
/// object that comes without content counts as not found. A HEAD answers with the
/// headers alone. A backend failure becomes the response of its category. An event that
/// does not answer what the handler asked for counts as an internal failure.
pub open spec fn handler_step(handler: HandlerView, event: EventView) -> (HandlerView, ActionView) {
    match handler {
        HandlerView::Get => match event {
            EventView::Reply(Ok(BackendOutputView::Object { metadata, has_body })) => if has_body {
                respond_at_once(object_response(metadata, true))
            } else {
                respond_at_once(object_not_found_response())
            },
            EventView::Reply(Err(error)) => respond_at_once(error_response(error)),
            _ => respond_at_once(error_response(unexpected_event())),
        },
        HandlerView::Head => match event {
            EventView::Reply(Ok(BackendOutputView::Object { metadata, has_body })) => respond_at_once(
                object_response(metadata, false),
            ),
            EventView::Reply(Err(error)) => respond_at_once(error_response(error)),
            _ => respond_at_once(error_response(unexpected_event())),
        },
        HandlerView::Delete => match event {
            EventView::Reply(Ok(_)) => respond_at_once(ok_response()),
            EventView::Reply(Err(error)) => respond_at_once(error_response(error)),
            _ => respond_at_once(error_response(unexpected_event())),
        },
        HandlerView::Transfer(transfer) => {
            let next = transfer_step(transfer, event);
            (HandlerView::Transfer(next.0), next.1)
        },
        HandlerView::Put(upload) => {
            let next = upload_step(upload, event);
            (HandlerView::Put(next.0), next.1)
        },
        HandlerView::Finished => respond_at_once(error_response(unexpected_event())),
    }
}

/// What holds of every handler that the gateway has brought about: the parts of its
/// upload, if it has one, are numbered from 1 without a gap.
pub open spec fn handler_inv(handler: HandlerView) -> bool {
    match handler {
        HandlerView::Put(upload) => upload_inv(upload),
        _ => true,
    }
}

/// Whether the handler has given its response.
pub open spec fn is_finished(handler: HandlerView) -> bool {
    match handler {
        HandlerView::Finished => true,
        HandlerView::Transfer(transfer) => transfer is Finished,
        HandlerView::Put(upload) => upload.phase is Finished,
        _ => false,
    }
}

/// Whether the handler can number the next part of its upload: part numbers are 64-bit
/// signed integers. A handler without an upload is never in the way.
pub open spec fn within_limits(handler: HandlerView) -> bool {
    match handler {
        HandlerView::Put(upload) => upload.session.parts.len() + 1 < i64::MAX,
        _ => true,
    }
}

fn finished_with(response: Response) -> (started: (Handler, Action))
    ensures
        (started.0@, started.1@) == respond_at_once(response@),
{
    (Handler::Finished, Action::Respond(response))
}

fn object_not_found() -> (response: Response)
    ensures
        response@ == object_not_found_response(),
{
    Response::failure(ErrorCategory::NotFound, String::from_str("Object Not Found"))
}

/// Handles a request for the index of the gateway: not implemented.
pub fn index(_request: &Request) -> (started: (Handler, Action))
    ensures
        (started.0@, started.1@) == index_handler(),
{
    finished_with(Response::not_implemented())
}

/// Handles a GET: reads the object that the path of the request addresses.
pub fn get_object(config: &S3Config, request: &Request) -> (started: (Handler, Action))
    ensures
        (started.0@, started.1@) == get_handler(config@, request@),
{
    (
        Handler::Get,
        Action::Call(
            BackendCall::GetObject {
                bucket: extract_bucket(config),
                key: extract_object_key(config, request.path.as_str()),
            },
        ),
    )
}

/// Handles a HEAD: reads the metadata of the object that the path addresses.
pub fn head_object(config: &S3Config, request: &Request) -> (started: (Handler, Action))
    ensures
        (started.0@, started.1@) == head_handler(config@, request@),
{
    (
        Handler::Head,
        Action::Call(
            BackendCall::HeadObject {
                bucket: extract_bucket(config),
                key: extract_object_key(config, request.path.as_str()),
            },
        ),
    )
}

/// Handles a PUT: stores the body of the request as the object that the path addresses.
pub fn put_object(config: &S3Config, request: &Request) -> (started: (Handler, Action))
    ensures
        (started.0@, started.1@) == put_handler(config@, request@),
{
    let target = resolve(config, request.path.as_str());
    let metadata = ObjectMetadata::from_headers(&request.headers);
    let (upload, action) = Upload::begin(target, metadata, PART_SIZE);
    (Handler::Put(upload), action)
}

/// Handles a DELETE: deletes the object that the path addresses.
pub fn delete_object(config: &S3Config, request: &Request) -> (started: (Handler, Action))
    ensures
        (started.0@, started.1@) == delete_handler(config@, request@),
{
    (
        Handler::Delete,
        Action::Call(
            BackendCall::DeleteObject {
                bucket: extract_bucket(config),
                key: extract_object_key(config, request.path.as_str()),
            },
        ),
    )
}

/// Handles a COPY: copies the object that the path addresses to the key that the
/// `Destination` header names.
pub fn copy_object(config: &S3Config, request: &Request) -> (started: (Handler, Action))
    ensures
        (started.0@, started.1@) == copy_handler(config@, request@),
{
    let (transfer, action) = Transfer::begin_copy(config, request.path.as_str(), &request.headers);
    (Handler::Transfer(transfer), action)
}

/// Handles a MOVE: copies the object that the path addresses to the key that the
/// `Destination` header names, and then deletes it where it was.
pub fn move_object(config: &S3Config, request: &Request) -> (started: (Handler, Action))
    ensures
        (started.0@, started.1@) == move_handler(config@, request@),
{
    let (transfer, action) = Transfer::begin_move(config, request.path.as_str(), &request.headers);
    (Handler::Transfer(transfer), action)
}

/// Whether `path` is the path of the index.
pub fn is_index_path(path: &str) -> (index: bool)
    ensures
        index == (path@ == index_path()),
{
    let index = path.unicode_len() == 1 && path.get_char(0) == '/';
    proof {
        if index {
            assert(path@ =~= index_path());
        }
    }
    index
}

/// Starts the handler that serves a request.
pub fn dispatch(config: &S3Config, method: Method, request: &Request) -> (started: (Handler, Action))
    ensures
        (started.0@, started.1@) == handler_for(config@, method, request@),
{
    if is_index_path(request.path.as_str()) {
        index(request)
    } else {
        match method {
            Method::Get => get_object(config, request),
            Method::Head => head_object(config, request),
            Method::Put => put_object(config, request),
            Method::Delete => delete_object(config, request),
            Method::Copy => copy_object(config, request),
            Method::Move => move_object(config, request),
        }
    }
}

impl Handler {
    /// Whether the handler can take a step: always, but for an upload that already
    /// holds as many parts as a part number can count.
    pub fn can_step(&self) -> (can: bool)
        ensures
            can == within_limits(self@),
    {
        match self {
            Handler::Put(upload) => (upload.part_count() as u64) < 0x7fff_ffff_ffff_fffe,
            _ => true,
        }
    }

    /// Whether the response has been given.
    pub fn is_finished(&self) -> (finished: bool)
        ensures
            finished == is_finished(self@),
    {
        match self {
            Handler::Finished => true,
            Handler::Transfer(transfer) => transfer.is_finished(),
            Handler::Put(upload) => upload.is_finished(),
            _ => false,
        }
    }

    /// Takes the handler one step on: hands it the event that its last action led to,
    /// and gets the state and the action that follow.
    pub fn step(self, event: Event) -> (next: (Handler, Action))
        requires
            within_limits(self@),
        ensures
            (next.0@, next.1@) == handler_step(self@, event@),
    {
        match self {
            Handler::Get => match event {
                Event::Reply(Ok(BackendOutput::Object { metadata, has_body })) => {
                    if has_body {
                        finished_with(Response::object(&metadata, true))
                    } else {
                        finished_with(object_not_found())
                    }
                },
                Event::Reply(Err(error)) => finished_with(Response::error(error)),
                _ => finished_with(Response::error(unexpected_event_error())),
            },
            Handler::Head => match event {
                Event::Reply(Ok(BackendOutput::Object { metadata, has_body: _ })) => finished_with(
                    Response::object(&metadata, false),
                ),
                Event::Reply(Err(error)) => finished_with(Response::error(error)),
                _ => finished_with(Response::error(unexpected_event_error())),
            },
            Handler::Delete => match event {
                Event::Reply(Ok(_)) => finished_with(Response::ok()),
                Event::Reply(Err(error)) => finished_with(Response::error(error)),
                _ => finished_with(Response::error(unexpected_event_error())),
            },
            Handler::Transfer(transfer) => {
                let (transfer, action) = transfer.step(event);
                (Handler::Transfer(transfer), action)
            },
            Handler::Put(upload) => {
                let (upload, action) = upload.step(event);
                (Handler::Put(upload), action)
            },
            Handler::Finished => finished_with(Response::error(unexpected_event_error())),
        }
    }
}

/// Every handler starts with its parts numbered from 1 without a gap, there being none,
/// and every step keeps them so.
pub proof fn law_handlers_keep_parts_numbered(
    config: S3ConfigView,
    method: Method,
    request: RequestView,
    handler: HandlerView,
    event: EventView,
)
    ensures
        handler_inv(handler_for(config, method, request).0),
        handler_inv(handler) ==> handler_inv(handler_step(handler, event).0),
{
    if let HandlerView::Put(upload) = handler {
        if upload_inv(upload) {
            law_step_keeps_invariant(upload, event);
        }
    }
}

} // verus!
