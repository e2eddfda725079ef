//! The operations that the gateway asks of the storage backend, and what comes back.

use vstd::prelude::*;
use crate::error::{BackendError, BackendErrorView};
use crate::metadata::{ObjectMetadata, ObjectMetadataView};

verus! {

/// One part of a multipart upload that the backend has stored: its number in the
/// upload, and the tag the backend gave it.
#[derive(Clone, Debug, PartialEq, Eq)]
pub struct CompletedPart {
    pub part_number: i64,
    pub e_tag: String,
}

/// The mathematical value of a `CompletedPart`.
pub struct CompletedPartView {
    pub part_number: int,
    pub e_tag: Seq<char>,
}

impl View for CompletedPart {
    type V = CompletedPartView;

    open spec fn view(&self) -> CompletedPartView {
        CompletedPartView { part_number: self.part_number as int, e_tag: self.e_tag@ }
    }
}

/// The value of a list of parts.
pub open spec fn parts_view(parts: Seq<CompletedPart>) -> Seq<CompletedPartView> {
    Seq::new(parts.len(), |i: int| parts[i]@)
}

/// Whether the parts are numbered 1, 2, 3, ... in the order in which they stand.
pub open spec fn numbered_from_one(parts: Seq<CompletedPartView>) -> bool {
    forall|i: int| 0 <= i < parts.len() ==> (#[trigger] parts[i]).part_number == i + 1
}

/// One call to the storage backend, with everything the call is made with.
#[derive(Clone, Debug, PartialEq, Eq)]
pub enum BackendCall {
    GetObject { bucket: String, key: String },
    HeadObject { bucket: String, key: String },
    CreateMultipartUpload { bucket: String, key: String, metadata: ObjectMetadata },
    UploadPart { bucket: String, key: String, upload_id: String, part_number: i64, body: Vec<u8> },
    CompleteMultipartUpload {
        bucket: String,
        key: String,
        upload_id: String,
        parts: Vec<CompletedPart>,
    },
    AbortMultipartUpload { bucket: String, key: String, upload_id: String },
    PutObject { bucket: String, key: String, body: Vec<u8>, metadata: ObjectMetadata },
    DeleteObject { bucket: String, key: String },
    CopyObject { bucket: String, copy_source: String, key: String },
}

/// The mathematical value of a `BackendCall`.
pub enum BackendCallView {
    GetObject { bucket: Seq<char>, key: Seq<char> },
    HeadObject { bucket: Seq<char>, key: Seq<char> },
    CreateMultipartUpload { bucket: Seq<char>, key: Seq<char>, metadata: ObjectMetadataView },
    UploadPart {
        bucket: Seq<char>,
        key: Seq<char>,
        upload_id: Seq<char>,
        part_number: int,
        body: Seq<u8>,
    },
    CompleteMultipartUpload {
        bucket: Seq<char>,
        key: Seq<char>,
        upload_id: Seq<char>,
        parts: Seq<CompletedPartView>,
    },
    AbortMultipartUpload { bucket: Seq<char>, key: Seq<char>, upload_id: Seq<char> },
    PutObject { bucket: Seq<char>, key: Seq<char>, body: Seq<u8>, metadata: ObjectMetadataView },
    DeleteObject { bucket: Seq<char>, key: Seq<char> },
    CopyObject { bucket: Seq<char>, copy_source: Seq<char>, key: Seq<char> },
}

impl View for BackendCall {
    type V = BackendCallView;

    open spec fn view(&self) -> BackendCallView {
        match *self {
            BackendCall::GetObject { bucket, key } => BackendCallView::GetObject {
                bucket: bucket@,
                key: key@,
            },
            BackendCall::HeadObject { bucket, key } => BackendCallView::HeadObject {
                bucket: bucket@,
                key: key@,
            },
            BackendCall::CreateMultipartUpload {
                bucket,
                key,
                metadata,
            } => BackendCallView::CreateMultipartUpload {
                bucket: bucket@,
                key: key@,
                metadata: metadata@,
            },
            BackendCall::UploadPart {
                bucket,
                key,
                upload_id,
                part_number,
                body,
            } => BackendCallView::UploadPart {
                bucket: bucket@,
                key: key@,
                upload_id: upload_id@,
                part_number: part_number as int,
                body: body@,
            },
            BackendCall::CompleteMultipartUpload {
                bucket,
                key,
                upload_id,
                parts,
            } => BackendCallView::CompleteMultipartUpload {
                bucket: bucket@,
                key: key@,
                upload_id: upload_id@,
                parts: parts_view(parts@),
            },
            BackendCall::AbortMultipartUpload {
                bucket,
                key,
                upload_id,
            } => BackendCallView::AbortMultipartUpload {
                bucket: bucket@,
                key: key@,
                upload_id: upload_id@,
            },
            BackendCall::PutObject { bucket, key, body, metadata } => BackendCallView::PutObject {
                bucket: bucket@,
                key: key@,
                body: body@,
                metadata: metadata@,
            },
            BackendCall::DeleteObject { bucket, key } => BackendCallView::DeleteObject {
                bucket: bucket@,
                key: key@,
            },
            BackendCall::CopyObject { bucket, copy_source, key } => BackendCallView::CopyObject {
                bucket: bucket@,
                copy_source: copy_source@,
                key: key@,
            },
        }
    }
}

/// Whether a call leaves the stored objects as they are.
pub open spec fn is_read_only(call: BackendCallView) -> bool {
    call is GetObject || call is HeadObject
}

/// What a backend call gives back when it succeeds.
#[derive(Clone, Debug, PartialEq, Eq)]
pub enum BackendOutput {
    /// The object that was asked for: its metadata, and whether its content came along.
    Object { metadata: ObjectMetadata, has_body: bool },
    /// A multipart upload was opened under this id.
    UploadCreated { upload_id: String },
    /// A part was stored and given this tag.
    PartUploaded { e_tag: String },
    /// The call did what it was asked and has nothing to report.
    Done,
}

/// The mathematical value of a `BackendOutput`.
pub enum BackendOutputView {
    Object { metadata: ObjectMetadataView, has_body: bool },
    UploadCreated { upload_id: Seq<char> },
    PartUploaded { e_tag: Seq<char> },
    Done,
}

impl View for BackendOutput {
    type V = BackendOutputView;

    open spec fn view(&self) -> BackendOutputView {
        match *self {
            BackendOutput::Object { metadata, has_body } => BackendOutputView::Object {
                metadata: metadata@,
                has_body,
            },
            BackendOutput::UploadCreated { upload_id } => BackendOutputView::UploadCreated {
                upload_id: upload_id@,
            },
            BackendOutput::PartUploaded { e_tag } => BackendOutputView::PartUploaded {
                e_tag: e_tag@,
            },
            BackendOutput::Done => BackendOutputView::Done,
        }
    }
}

/// How one backend call ended.
pub type Reply = Result<BackendOutput, BackendError>;

/// The mathematical value of a `Reply`.
pub type ReplyView = Result<BackendOutputView, BackendErrorView>;

/// The value of a reply.
pub open spec fn reply_view(reply: Reply) -> ReplyView {
    match reply {
        Ok(output) => Ok(output@),
        Err(error) => Err(error@),
    }
}

} // verus!
