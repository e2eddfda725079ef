//! What passes between a handler and the code that runs it: the handler names an action,
//! and is told the event that the action led to.

use vstd::prelude::*;
use vstd::string::StringExecFns;
use crate::backend::{BackendCall, BackendCallView, Reply, ReplyView, reply_view};
use crate::error::{
    BackendError, BackendErrorView, ErrorCategory, ErrorKind, category_of, status_code_of,
};
use crate::metadata::{
    Header, HeaderName, ObjectMetadata, ObjectMetadataView, headers_from_metadata, headers_view,
};

verus! {

/// How a request ended.
#[derive(Clone, Copy, Debug, PartialEq, Eq, Structural)]
pub enum Status {
    Success,
    NotImplemented,
    Error(ErrorCategory),
}

/// The HTTP status code of each outcome.
pub open spec fn status_code(status: Status) -> u16 {
    match status {
        Status::Success => 200,
        Status::NotImplemented => 501,
        Status::Error(category) => status_code_of(category),
    }
}

impl Status {
    /// The HTTP status code of this outcome.
    pub fn code(self) -> (code: u16)
        ensures
            code == status_code(self),
    {
        match self {
            Status::Success => 200,
            Status::NotImplemented => 501,
            Status::Error(category) => category.status_code(),
        }
    }
}

/// The body of a response.
#[derive(Clone, Debug, PartialEq, Eq)]
pub enum ResponseBody {
    /// No body.
    Empty,
    /// A short text, such as the message of a failure.
    Text(String),
    /// The content of the object, streamed from the backend as it arrives.
    Stream,
}

/// The mathematical value of a `ResponseBody`.
pub enum ResponseBodyView {
    Empty,
    Text(Seq<char>),
    Stream,
}

impl View for ResponseBody {
    type V = ResponseBodyView;

    open spec fn view(&self) -> ResponseBodyView {
        match *self {
            ResponseBody::Empty => ResponseBodyView::Empty,
            ResponseBody::Text(text) => ResponseBodyView::Text(text@),
            ResponseBody::Stream => ResponseBodyView::Stream,
        }
    }
}

/// The response to one request.
#[derive(Clone, Debug, PartialEq, Eq)]
pub struct Response {
    pub status: Status,
    pub headers: Vec<Header>,
    pub body: ResponseBody,
}

/// The mathematical value of a `Response`.
pub struct ResponseView {
    pub status: Status,
    pub headers: Seq<(HeaderName, Seq<char>)>,
    pub body: ResponseBodyView,
}

impl View for Response {
    type V = ResponseView;

    open spec fn view(&self) -> ResponseView {
        ResponseView { status: self.status, headers: headers_view(self.headers@), body: self.body@ }
    }
}

/// The response to a request that was carried out and has nothing to show.
pub open spec fn ok_response() -> ResponseView {
    ResponseView { status: Status::Success, headers: Seq::empty(), body: ResponseBodyView::Empty }
}

/// The response to a request that the gateway does not serve.
pub open spec fn not_implemented_response() -> ResponseView {
    ResponseView {
        status: Status::NotImplemented,
        headers: Seq::empty(),
        body: ResponseBodyView::Empty,
    }
}

/// The response that reports a failure: the category as status, the message as body.
pub open spec fn failure_response(category: ErrorCategory, message: Seq<char>) -> ResponseView {
    ResponseView {
        status: Status::Error(category),
        headers: Seq::empty(),
        body: ResponseBodyView::Text(message),
    }
}

/// The response that reports a backend failure: the category of its kind, and the
/// backend's own message.
pub open spec fn error_response(error: BackendErrorView) -> ResponseView {
    failure_response(category_of(error.kind), error.message)
}

/// The response that describes an object: its metadata as headers, and its content as
/// a streamed body where `with_content` says so.
pub open spec fn object_response(metadata: ObjectMetadataView, with_content: bool) -> ResponseView {
    ResponseView {
        status: Status::Success,
        headers: headers_from_metadata(metadata),
        body: if with_content {
            ResponseBodyView::Stream
        } else {
            ResponseBodyView::Empty
        },
    }
}

impl Response {
    /// The response to a request that was carried out and has nothing to show.
    pub fn ok() -> (response: Response)
        ensures
            response@ == ok_response(),
    {
        let response = Response { status: Status::Success, headers: Vec::new(), body: ResponseBody::Empty };
        assert(headers_view(response.headers@) =~= Seq::empty());
        response
    }

    /// The response to a request that the gateway does not serve.
    pub fn not_implemented() -> (response: Response)
        ensures
            response@ == not_implemented_response(),
    {
        let response = Response {
            status: Status::NotImplemented,
            headers: Vec::new(),
            body: ResponseBody::Empty,
        };
        assert(headers_view(response.headers@) =~= Seq::empty());
        response
    }

    /// The response that reports a failure of the given category with a message.
    pub fn failure(category: ErrorCategory, message: String) -> (response: Response)
        ensures
            response@ == failure_response(category, message@),
    {
        let response = Response {
            status: Status::Error(category),
            headers: Vec::new(),
            body: ResponseBody::Text(message),
        };
        assert(headers_view(response.headers@) =~= Seq::empty());
        response
    }

    /// The response that reports a backend failure.
    pub fn error(error: BackendError) -> (response: Response)
        ensures
            response@ == error_response(error@),
    {
        let category = error.category();
        Response::failure(category, error.message)
    }

    /// The response that describes an object: one header for each metadata field that is
    /// set, and the content as a streamed body where `with_content` says so.
    pub fn object(metadata: &ObjectMetadata, with_content: bool) -> (response: Response)
        ensures
            response@ == object_response(metadata@, with_content),
    {
        Response {
            status: Status::Success,
            headers: metadata.to_headers(),
            body: if with_content {
                ResponseBody::Stream
            } else {
                ResponseBody::Empty
            },
        }
    }
}

/// The message of a failure reaches the client as it is, and never changes the status:
/// two failures of one kind are answered with the same status.
pub proof fn law_message_never_changes_status(a: BackendErrorView, b: BackendErrorView)
    requires
        a.kind == b.kind,
    ensures
        error_response(a).status == error_response(b).status,
        error_response(a).status == Status::Error(category_of(a.kind)),
        error_response(a).body == ResponseBodyView::Text(a.message),
{
}

/// The failure that stands for an event that does not answer what a handler asked for.
pub open spec fn unexpected_event() -> BackendErrorView {
    BackendErrorView { kind: ErrorKind::Unknown, message: "Unexpected event"@ }
}

/// The failure that stands for an event that does not answer what a handler asked for.
pub(crate) fn unexpected_event_error() -> (error: BackendError)
    ensures
        error@ == unexpected_event(),
{
    BackendError::new(ErrorKind::Unknown, String::from_str("Unexpected event"))
}

/// What the code that runs a handler reports back to it.
#[derive(Debug, PartialEq, Eq)]
pub enum Event {
    /// The backend call that the handler asked for has ended.
    Reply(Reply),
    /// The next piece of the request body has arrived.
    Body(Vec<u8>),
    /// The request body has ended.
    BodyEnd,
    /// The request body could not be read to its end.
    BodyFailed,
}

/// The mathematical value of an `Event`.
pub enum EventView {
    Reply(ReplyView),
    Body(Seq<u8>),
    BodyEnd,
    BodyFailed,
}

impl View for Event {
    type V = EventView;

    open spec fn view(&self) -> EventView {
        match *self {
            Event::Reply(reply) => EventView::Reply(reply_view(reply)),
            Event::Body(bytes) => EventView::Body(bytes@),
            Event::BodyEnd => EventView::BodyEnd,
            Event::BodyFailed => EventView::BodyFailed,
        }
    }
}

/// What a handler wants done next.
#[derive(Clone, Debug, PartialEq, Eq)]
pub enum Action {
    /// Make this backend call, and report how it ended.
    Call(BackendCall),
    /// Read the next piece of the request body, and report it or the end of the body.
    ReadBody,
    /// Send this response. The request is over.
    Respond(Response),
}

/// The mathematical value of an `Action`.
pub enum ActionView {
    Call(BackendCallView),
    ReadBody,
    Respond(ResponseView),
}

impl View for Action {
    type V = ActionView;

    open spec fn view(&self) -> ActionView {
        match *self {
            Action::Call(call) => ActionView::Call(call@),
            Action::ReadBody => ActionView::ReadBody,
            Action::Respond(response) => ActionView::Respond(response@),
        }
    }
}

} // verus!
