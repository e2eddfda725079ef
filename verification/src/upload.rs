//! The upload engine: stores a request body of unknown length as one object, through the
//! backend's multipart protocol.
//!
//! The body arrives in pieces of any size. The engine cuts it into chunks of a fixed
//! size, uploads each chunk as one part, in order and one at a time, and numbers the
//! parts from 1. When the body has ended it completes the upload with the parts it has
//! collected. A body without a single byte cannot be completed that way: the engine
//! discards the upload and stores an empty object directly. When a part fails, the
//! engine aborts the upload and reports that failure, whatever becomes of the abort.

use vstd::prelude::*;
use vstd::string::StringExecFns;
use crate::backend::{
    BackendCall, BackendCallView, BackendOutput, BackendOutputView, CompletedPart,
    CompletedPartView, numbered_from_one, parts_view,
};
use crate::error::{BackendError, BackendErrorView, ErrorKind};
use crate::key::{ResolvedTarget, ResolvedTargetView};
use crate::metadata::{ObjectMetadata, ObjectMetadataView};
use crate::protocol::{
    Action, ActionView, Event, EventView, Response, ResponseView, error_response, ok_response,
    unexpected_event, unexpected_event_error,
};

verus! {

/// The size of every part but the last: the least that the backend takes for a part
/// that is not the last one. 5 MiB.
pub const PART_SIZE: usize = 5 * 1024 * 1024;

/// One multipart upload as the backend knows it: where the object goes, the id under
/// which the upload was opened, and the parts stored so far, in the order of the body.
#[derive(Clone, Debug, PartialEq, Eq)]
pub struct UploadSession {
    pub bucket: String,
    pub key: String,
    pub upload_id: String,
    pub metadata: ObjectMetadata,
    pub parts: Vec<CompletedPart>,
}

/// The mathematical value of an `UploadSession`.
pub struct UploadSessionView {
    pub bucket: Seq<char>,
    pub key: Seq<char>,
    pub upload_id: Seq<char>,
    pub metadata: ObjectMetadataView,
    pub parts: Seq<CompletedPartView>,
}

impl View for UploadSession {
    type V = UploadSessionView;

    open spec fn view(&self) -> UploadSessionView {
        UploadSessionView {
            bucket: self.bucket@,
            key: self.key@,
            upload_id: self.upload_id@,
            metadata: self.metadata@,
            parts: parts_view(self.parts@),
        }
    }
}

/// Where an upload stands.
#[derive(Clone, Debug, PartialEq, Eq)]
pub enum Phase {
    /// The backend has been asked to open the upload.
    Creating,
    /// The engine waits for the next piece of the body.
    Reading,
    /// A part is on its way to the backend. `ended` tells whether the body has ended.
    Uploading { ended: bool },
    /// The backend has been asked to complete the upload.
    Completing,
    /// The body was empty: the backend has been asked to discard the upload.
    Discarding,
    /// The body was empty: the backend has been asked to store an empty object.
    Storing,
    /// Something failed: the backend has been asked to abort the upload.
    Aborting { error: BackendError },
    /// The response has been given.
    Finished,
}

/// The mathematical value of a `Phase`.
pub enum PhaseView {
    Creating,
    Reading,
    Uploading { ended: bool },
    Completing,
    Discarding,
    Storing,
    Aborting { error: BackendErrorView },
    Finished,
}

impl View for Phase {
    type V = PhaseView;

    open spec fn view(&self) -> PhaseView {
        match *self {
            Phase::Creating => PhaseView::Creating,
            Phase::Reading => PhaseView::Reading,
            Phase::Uploading { ended } => PhaseView::Uploading { ended },
            Phase::Completing => PhaseView::Completing,
            Phase::Discarding => PhaseView::Discarding,
            Phase::Storing => PhaseView::Storing,
            Phase::Aborting { error } => PhaseView::Aborting { error: error@ },
            Phase::Finished => PhaseView::Finished,
        }
    }
}

/// The state of the engine for one request.
#[derive(Debug)]
pub struct Upload {
    phase: Phase,
    session: UploadSession,
    buffer: Vec<u8>,
    chunk_size: usize,
}

/// The mathematical value of an `Upload`: its phase, its session, the bytes that have
/// arrived and are not yet part of an uploaded chunk, and the chunk size.
pub struct UploadView {
    pub phase: PhaseView,
    pub session: UploadSessionView,
    pub buffer: Seq<u8>,
    pub chunk_size: nat,
}

impl View for Upload {
    type V = UploadView;

    closed spec fn view(&self) -> UploadView {
        UploadView {
            phase: self.phase@,
            session: self.session@,
            buffer: self.buffer@,
            chunk_size: self.chunk_size as nat,
        }
    }
}

/// The failure that stands for a request body that could not be read to its end.
pub open spec fn stream_failure() -> BackendErrorView {
    BackendErrorView {
        kind: ErrorKind::Unknown,
        message: "Something went wrong with HttpRequest stream"@,
    }
}

/// The call that opens an upload.
pub open spec fn create_call(session: UploadSessionView) -> BackendCallView {
    BackendCallView::CreateMultipartUpload {
        bucket: session.bucket,
        key: session.key,
        metadata: session.metadata,
    }
}

/// The call that uploads `body` as the next part of the session.
pub open spec fn part_call(session: UploadSessionView, body: Seq<u8>) -> BackendCallView {
    BackendCallView::UploadPart {
        bucket: session.bucket,
        key: session.key,
        upload_id: session.upload_id,
        part_number: session.parts.len() as int + 1,
        body,
    }
}

/// The call that completes the session with the parts it holds.
pub open spec fn complete_call(session: UploadSessionView) -> BackendCallView {
    BackendCallView::CompleteMultipartUpload {
        bucket: session.bucket,
        key: session.key,
        upload_id: session.upload_id,
        parts: session.parts,
    }
}

/// The call that aborts the session.
pub open spec fn abort_call(session: UploadSessionView) -> BackendCallView {
    BackendCallView::AbortMultipartUpload {
        bucket: session.bucket,
        key: session.key,
        upload_id: session.upload_id,
    }
}

/// The call that stores an empty object where the session would have put its object.
pub open spec fn store_empty_call(session: UploadSessionView) -> BackendCallView {
    BackendCallView::PutObject {
        bucket: session.bucket,
        key: session.key,
        body: Seq::empty(),
        metadata: session.metadata,
    }
}

/// The session after the backend has stored the part in flight under `e_tag`: the part
/// joins the list with the next number.
pub open spec fn with_part(session: UploadSessionView, e_tag: Seq<char>) -> UploadSessionView {
    UploadSessionView {
        parts: session.parts.push(
            CompletedPartView { part_number: session.parts.len() as int + 1, e_tag },
        ),
        ..session
    }
}

/// The start of an upload: nothing stored, nothing buffered, and the backend asked to
/// open the upload.
pub open spec fn begin_upload(
    target: ResolvedTargetView,
    metadata: ObjectMetadataView,
    chunk_size: nat,
) -> (UploadView, ActionView) {
    let session = UploadSessionView {
        bucket: target.bucket,
        key: target.key,
        upload_id: Seq::empty(),
        metadata,
        parts: Seq::empty(),
    };
    (
        UploadView { phase: PhaseView::Creating, session, buffer: Seq::empty(), chunk_size },
        ActionView::Call(create_call(session)),
    )
}

/// What the engine does when no call is in flight, given whether the body has ended.
/// A full chunk in the buffer is uploaded first. Short of a full chunk, the engine reads
/// on while the body lasts. At the end of the body, what is left in the buffer is the
/// last part; with nothing left, the upload is completed, or, if it has no part at all,
/// discarded in favour of an empty object.
pub open spec fn proceed(upload: UploadView, ended: bool) -> (UploadView, ActionView) {
    let size = upload.chunk_size as int;
    if upload.buffer.len() >= size {
        (
            UploadView {
                phase: PhaseView::Uploading { ended },
                buffer: upload.buffer.skip(size),
                ..upload
            },
            ActionView::Call(part_call(upload.session, upload.buffer.take(size))),
        )
    } else if !ended {
        (UploadView { phase: PhaseView::Reading, ..upload }, ActionView::ReadBody)
    } else if upload.buffer.len() > 0 {
        (
            UploadView {
                phase: PhaseView::Uploading { ended: true },
                buffer: Seq::empty(),
                ..upload
            },
            ActionView::Call(part_call(upload.session, upload.buffer)),
        )
    } else if upload.session.parts.len() == 0 {
        (
            UploadView { phase: PhaseView::Discarding, ..upload },
            ActionView::Call(abort_call(upload.session)),
        )
    } else {
        (
            UploadView { phase: PhaseView::Completing, ..upload },
            ActionView::Call(complete_call(upload.session)),
        )
    }
}

/// What the engine does when the upload cannot go on: it asks the backend to abort the
/// upload, and keeps the failure for the response.
pub open spec fn abandon(upload: UploadView, error: BackendErrorView) -> (UploadView, ActionView) {
    (
        UploadView { phase: PhaseView::Aborting { error }, ..upload },
        ActionView::Call(abort_call(upload.session)),
    )
}

/// What the engine does when the request is over: it gives the response.
pub open spec fn finish(upload: UploadView, response: ResponseView) -> (
    UploadView,
    ActionView,
) {
    (UploadView { phase: PhaseView::Finished, ..upload }, ActionView::Respond(response))
}

/// One step of the engine: the state and the action that follow an event.
///
/// An event that does not answer what the engine asked for counts as a failure: while
/// the upload is open it is aborted, and the response reports an internal error.
pub open spec fn upload_step(upload: UploadView, event: EventView) -> (UploadView, ActionView) {
    match upload.phase {
        PhaseView::Creating => match event {
            EventView::Reply(Ok(BackendOutputView::UploadCreated { upload_id })) => (
                UploadView {
                    phase: PhaseView::Reading,
                    session: UploadSessionView { upload_id, ..upload.session },
                    ..upload
                },
                ActionView::ReadBody,
            ),
            EventView::Reply(Err(error)) => finish(upload, error_response(error)),
            _ => finish(upload, error_response(unexpected_event())),
        },
        PhaseView::Reading => match event {
            EventView::Body(bytes) => proceed(
                UploadView { buffer: upload.buffer + bytes, ..upload },
                false,
            ),
            EventView::BodyEnd => proceed(upload, true),
            EventView::BodyFailed => abandon(upload, stream_failure()),
            EventView::Reply(_) => abandon(upload, unexpected_event()),
        },
        PhaseView::Uploading { ended } => match event {
            EventView::Reply(Ok(BackendOutputView::PartUploaded { e_tag })) => proceed(
                UploadView { session: with_part(upload.session, e_tag), ..upload },
                ended,
            ),
            EventView::Reply(Err(error)) => abandon(upload, error),
            _ => abandon(upload, unexpected_event()),
        },
        PhaseView::Completing | PhaseView::Storing => match event {
            EventView::Reply(Ok(_)) => finish(upload, ok_response()),
            EventView::Reply(Err(error)) => finish(upload, error_response(error)),
            _ => finish(upload, error_response(unexpected_event())),
        },
        PhaseView::Discarding => (
            UploadView { phase: PhaseView::Storing, ..upload },
            ActionView::Call(store_empty_call(upload.session)),
        ),
        PhaseView::Aborting { error } => finish(upload, error_response(error)),
        PhaseView::Finished => finish(upload, error_response(unexpected_event())),
    }
}

/// What holds of every upload that the engine has brought about: the chunk size is
/// positive, the parts are numbered from 1 without a gap, and the engine waits for more
/// of the body only while it lacks a full chunk.
pub open spec fn upload_inv(upload: UploadView) -> bool {
    &&& upload.chunk_size > 0
    &&& numbered_from_one(upload.session.parts)
    &&& upload.phase is Reading ==> upload.buffer.len() < upload.chunk_size
    &&& upload.phase is Creating ==> upload.session.parts.len() == 0 && upload.buffer.len() == 0
}

/// A copy of a list of parts.
fn duplicate_parts(parts: &Vec<CompletedPart>) -> (copy: Vec<CompletedPart>)
    ensures
        parts_view(copy@) == parts_view(parts@),
{
    let mut copy: Vec<CompletedPart> = Vec::new();
    let mut i: usize = 0;
    while i < parts.len()
        invariant
            i <= parts.len(),
            copy@.len() == i,
            forall|j: int| 0 <= j < i ==> (#[trigger] copy@[j])@ == parts@[j]@,
        decreases parts.len() - i,
    {
        copy.push(CompletedPart { part_number: parts[i].part_number, e_tag: parts[i].e_tag.clone() });
        i += 1;
    }
    assert(parts_view(copy@) =~= parts_view(parts@));
    copy
}

impl UploadSession {
    fn create_call(&self) -> (call: BackendCall)
        ensures
            call@ == create_call(self@),
    {
        BackendCall::CreateMultipartUpload {
            bucket: self.bucket.clone(),
            key: self.key.clone(),
            metadata: self.metadata.duplicate(),
        }
    }

    fn part_call(&self, body: Vec<u8>) -> (call: BackendCall)
        requires
            self@.parts.len() < i64::MAX,
        ensures
            call@ == part_call(self@, body@),
    {
        BackendCall::UploadPart {
            bucket: self.bucket.clone(),
            key: self.key.clone(),
            upload_id: self.upload_id.clone(),
            part_number: (self.parts.len() as i64) + 1,
            body,
        }
    }

    fn complete_call(&self) -> (call: BackendCall)
        ensures
            call@ == complete_call(self@),
    {
        BackendCall::CompleteMultipartUpload {
            bucket: self.bucket.clone(),
            key: self.key.clone(),
            upload_id: self.upload_id.clone(),
            parts: duplicate_parts(&self.parts),
        }
    }

    fn abort_call(&self) -> (call: BackendCall)
        ensures
            call@ == abort_call(self@),
    {
        BackendCall::AbortMultipartUpload {
            bucket: self.bucket.clone(),
            key: self.key.clone(),
            upload_id: self.upload_id.clone(),
        }
    }

    fn store_empty_call(&self) -> (call: BackendCall)
        ensures
            call@ == store_empty_call(self@),
    {
        BackendCall::PutObject {
            bucket: self.bucket.clone(),
            key: self.key.clone(),
            body: Vec::new(),
            metadata: self.metadata.duplicate(),
        }
    }
}

impl Upload {
    /// Starts the upload of an object to `target` with the given metadata, in chunks of
    /// `chunk_size` bytes. The first action asks the backend to open the upload.
    pub fn begin(target: ResolvedTarget, metadata: ObjectMetadata, chunk_size: usize) -> (started: (
        Upload,
        Action,
    ))
        requires
            chunk_size > 0,
        ensures
            (started.0@, started.1@) == begin_upload(target@, metadata@, chunk_size as nat),
            upload_inv(started.0@),
    {
        let session = UploadSession {
            bucket: target.bucket,
            key: target.key,
            upload_id: String::new(),
            metadata,
            parts: Vec::new(),
        };
        assert(parts_view(session.parts@) =~= Seq::empty());
        let call = session.create_call();
        (
            Upload { phase: Phase::Creating, session, buffer: Vec::new(), chunk_size },
            Action::Call(call),
        )
    }

    /// The session of this upload. Its `upload_id` is empty until the backend has opened
    /// the upload.
    pub fn session(&self) -> (session: &UploadSession)
        ensures
            session@ == self@.session,
    {
        &self.session
    }

    /// How many parts the backend has stored so far.
    pub fn part_count(&self) -> (count: usize)
        ensures
            count == self@.session.parts.len(),
    {
        self.session.parts.len()
    }

    /// Whether the response has been given.
    pub fn is_finished(&self) -> (finished: bool)
        ensures
            finished == (self@.phase is Finished),
    {
        match self.phase {
            Phase::Finished => true,
            _ => false,
        }
    }

    fn proceed(self, ended: bool) -> (next: (Upload, Action))
        requires
            self@.session.parts.len() < i64::MAX,
        ensures
            (next.0@, next.1@) == proceed(self@, ended),
    {
        let Upload { phase: _, session, mut buffer, chunk_size } = self;
        if buffer.len() >= chunk_size {
            let rest = buffer.split_off(chunk_size);
            let call = session.part_call(buffer);
            (
                Upload { phase: Phase::Uploading { ended }, session, buffer: rest, chunk_size },
                Action::Call(call),
            )
        } else if !ended {
            (Upload { phase: Phase::Reading, session, buffer, chunk_size }, Action::ReadBody)
        } else if buffer.len() > 0 {
            let call = session.part_call(buffer);
            (
                Upload { phase: Phase::Uploading { ended: true }, session, buffer: Vec::new(), chunk_size },
                Action::Call(call),
            )
        } else if session.parts.len() == 0 {
            let call = session.abort_call();
            (Upload { phase: Phase::Discarding, session, buffer, chunk_size }, Action::Call(call))
        } else {
            let call = session.complete_call();
            (Upload { phase: Phase::Completing, session, buffer, chunk_size }, Action::Call(call))
        }
    }

    fn abandon(self, error: BackendError) -> (next: (Upload, Action))
        ensures
            (next.0@, next.1@) == abandon(self@, error@),
    {
        let Upload { phase: _, session, buffer, chunk_size } = self;
        let call = session.abort_call();
        (Upload { phase: Phase::Aborting { error }, session, buffer, chunk_size }, Action::Call(call))
    }

    fn finish(self, response: Response) -> (next: (Upload, Action))
        ensures
            (next.0@, next.1@) == finish(self@, response@),
    {
        let Upload { phase: _, session, buffer, chunk_size } = self;
        (Upload { phase: Phase::Finished, session, buffer, chunk_size }, Action::Respond(response))
    }

    /// Takes the engine one step on: hands it the event that its last action led to, and
    /// gets the state and the action that follow.
    pub fn step(self, event: Event) -> (next: (Upload, Action))
        requires
            self@.session.parts.len() + 1 < i64::MAX,
        ensures
            (next.0@, next.1@) == upload_step(self@, event@),
            upload_inv(self@) ==> upload_inv(next.0@),
    {
        proof {
            if upload_inv(self@) {
                law_step_keeps_invariant(self@, event@);
            }
        }
        let Upload { phase, session, buffer, chunk_size } = self;
        match phase {
            Phase::Creating => {
                let upload = Upload { phase: Phase::Creating, session, buffer, chunk_size };
                match event {
                    Event::Reply(Ok(BackendOutput::UploadCreated { upload_id })) => {
                        let Upload { phase: _, session, buffer, chunk_size } = upload;
                        let session = UploadSession { upload_id, ..session };
                        (Upload { phase: Phase::Reading, session, buffer, chunk_size }, Action::ReadBody)
                    },
                    Event::Reply(Err(error)) => upload.finish(Response::error(error)),
                    _ => upload.finish(Response::error(unexpected_event_error())),
                }
            },
            Phase::Reading => {
                match event {
                    Event::Body(bytes) => {
                        let mut buffer = buffer;
                        let mut bytes = bytes;
                        buffer.append(&mut bytes);
                        Upload { phase: Phase::Reading, session, buffer, chunk_size }.proceed(false)
                    },
                    Event::BodyEnd => Upload { phase: Phase::Reading, session, buffer, chunk_size }.proceed(
                        true,
                    ),
                    Event::BodyFailed => Upload {
                        phase: Phase::Reading,
                        session,
                        buffer,
                        chunk_size,
                    }.abandon(stream_failure_error()),
                    Event::Reply(_) => Upload {
                        phase: Phase::Reading,
                        session,
                        buffer,
                        chunk_size,
                    }.abandon(unexpected_event_error()),
                }
            },
            Phase::Uploading { ended } => {
                match event {
                    Event::Reply(Ok(BackendOutput::PartUploaded { e_tag })) => {
                        let mut session = session;
                        let part_number = (session.parts.len() as i64) + 1;
                        let ghost before = session@;
                        session.parts.push(CompletedPart { part_number, e_tag });
                        assert(session@.parts =~= with_part(before, e_tag@).parts);
                        Upload { phase: Phase::Uploading { ended }, session, buffer, chunk_size }.proceed(
                            ended,
                        )
                    },
                    Event::Reply(Err(error)) => Upload {
                        phase: Phase::Uploading { ended },
                        session,
                        buffer,
                        chunk_size,
                    }.abandon(error),
                    _ => Upload { phase: Phase::Uploading { ended }, session, buffer, chunk_size }.abandon(
                        unexpected_event_error(),
                    ),
                }
            },
            Phase::Completing => {
                let upload = Upload { phase: Phase::Completing, session, buffer, chunk_size };
                match event {
                    Event::Reply(Ok(_)) => upload.finish(Response::ok()),
                    Event::Reply(Err(error)) => upload.finish(Response::error(error)),
                    _ => upload.finish(Response::error(unexpected_event_error())),
                }
            },
            Phase::Storing => {
                let upload = Upload { phase: Phase::Storing, session, buffer, chunk_size };
                match event {
                    Event::Reply(Ok(_)) => upload.finish(Response::ok()),
                    Event::Reply(Err(error)) => upload.finish(Response::error(error)),
                    _ => upload.finish(Response::error(unexpected_event_error())),
                }
            },
            Phase::Discarding => {
                let call = session.store_empty_call();
                (Upload { phase: Phase::Storing, session, buffer, chunk_size }, Action::Call(call))
            },
            Phase::Aborting { error } => {
                let response = Response::error(error.duplicate());
                Upload { phase: Phase::Aborting { error }, session, buffer, chunk_size }.finish(response)
            },
            Phase::Finished => Upload { phase: Phase::Finished, session, buffer, chunk_size }.finish(
                Response::error(unexpected_event_error()),
            ),
        }
    }
}

/// The failure that stands for a request body that could not be read to its end.
fn stream_failure_error() -> (error: BackendError)
    ensures
        error@ == stream_failure(),
{
    BackendError::new(
        ErrorKind::Unknown,
        String::from_str("Something went wrong with HttpRequest stream"),
    )
}

/// Every step keeps the parts numbered from 1 without a gap, and leaves the engine
/// reading only while it lacks a full chunk.
pub proof fn law_step_keeps_invariant(upload: UploadView, event: EventView)
    requires
        upload_inv(upload),
    ensures
        upload_inv(upload_step(upload, event).0),
{
}

/// Every part that the engine sends carries the number that follows the parts stored so
/// far, and holds at least one byte and at most a chunk; a part short of a chunk is sent
/// only when the body has ended and nothing is left behind it, so it is the last part.
/// The completion that the engine asks for carries all the stored parts, at least one,
/// numbered from 1 in their order.
pub proof fn law_calls_number_the_parts(upload: UploadView, event: EventView)
    requires
        upload_inv(upload),
    ensures
        match upload_step(upload, event) {
            (next, ActionView::Call(BackendCallView::UploadPart { part_number, body, .. })) => {
                &&& part_number == next.session.parts.len() + 1
                &&& 0 < body.len() <= next.chunk_size
                &&& body.len() < next.chunk_size ==> next.phase == (PhaseView::Uploading {
                    ended: true,
                }) && next.buffer.len() == 0
            },
            (
                next,
                ActionView::Call(BackendCallView::CompleteMultipartUpload { parts, .. }),
            ) => {
                &&& parts == next.session.parts
                &&& parts.len() > 0
                &&& numbered_from_one(parts)
            },
            _ => true,
        },
{
}

/// The engine asks for more of the body only while it holds less than a chunk: it never
/// reads ahead of the part that it has yet to send, however long the body is.
pub proof fn law_engine_reads_only_short_of_a_chunk(upload: UploadView, event: EventView)
    requires
        upload_inv(upload),
    ensures
        upload_step(upload, event).1 is ReadBody ==> upload_step(upload, event).0.phase is Reading
            && upload_step(upload, event).0.buffer.len() < upload.chunk_size,
{
}

} // verus!
