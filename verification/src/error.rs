//! Backend failures and the protocol-level categories they map to.

use vstd::prelude::*;

verus! {

/// The kinds of failure a backend operation reports.
#[derive(Clone, Copy, Debug, PartialEq, Eq, Structural)]
pub enum ErrorKind {
    /// The object does not exist.
    NoSuchKey,
    /// The request never reached the backend, or its answer never arrived.
    HttpDispatch,
    /// The backend credentials could not be obtained or were refused.
    Credentials,
    /// The request parameters were malformed.
    Validation,
    /// The object sits in cold storage and must be restored before it can be copied.
    ObjectNotInActiveTier,
    /// Anything the backend reported that fits no other kind.
    Unknown,
}

/// The only vocabulary in which failures reach the protocol layer.
#[derive(Clone, Copy, Debug, PartialEq, Eq, Structural)]
pub enum ErrorCategory {
    NotFound,
    Forbidden,
    BadRequest,
    Internal,
}

/// A failure of one backend call: its kind and the backend's own message text.
#[derive(Clone, Debug, PartialEq, Eq)]
pub struct BackendError {
    pub kind: ErrorKind,
    pub message: String,
}

/// The mathematical value of a `BackendError`.
pub struct BackendErrorView {
    pub kind: ErrorKind,
    pub message: Seq<char>,
}

impl View for BackendError {
    type V = BackendErrorView;

    open spec fn view(&self) -> BackendErrorView {
        BackendErrorView { kind: self.kind, message: self.message@ }
    }
}

/// The category of each kind of failure, whichever operation produced it.
pub open spec fn category_of(kind: ErrorKind) -> ErrorCategory {
    match kind {
        ErrorKind::NoSuchKey => ErrorCategory::NotFound,
        ErrorKind::Credentials => ErrorCategory::Forbidden,
        ErrorKind::ObjectNotInActiveTier => ErrorCategory::Forbidden,
        ErrorKind::Validation => ErrorCategory::BadRequest,
        ErrorKind::HttpDispatch => ErrorCategory::Internal,
        ErrorKind::Unknown => ErrorCategory::Internal,
    }
}

/// The HTTP status code that stands for a category.
pub open spec fn status_code_of(category: ErrorCategory) -> u16 {
    match category {
        ErrorCategory::NotFound => 404,
        ErrorCategory::Forbidden => 403,
        ErrorCategory::BadRequest => 400,
        ErrorCategory::Internal => 500,
    }
}

impl ErrorKind {
    /// Maps a kind of backend failure to its protocol category.
    pub fn category(self) -> (category: ErrorCategory)
        ensures
            category == category_of(self),
    {
        match self {
            ErrorKind::NoSuchKey => ErrorCategory::NotFound,
            ErrorKind::Credentials | ErrorKind::ObjectNotInActiveTier => ErrorCategory::Forbidden,
            ErrorKind::Validation => ErrorCategory::BadRequest,
            ErrorKind::HttpDispatch | ErrorKind::Unknown => ErrorCategory::Internal,
        }
    }
}

impl ErrorCategory {
    /// The HTTP status code of this category.
    pub fn status_code(self) -> (code: u16)
        ensures
            code == status_code_of(self),
    {
        match self {
            ErrorCategory::NotFound => 404,
            ErrorCategory::Forbidden => 403,
            ErrorCategory::BadRequest => 400,
            ErrorCategory::Internal => 500,
        }
    }
}

impl BackendError {
    /// A failure of the given kind with the backend's message.
    pub fn new(kind: ErrorKind, message: String) -> (error: BackendError)
        ensures
            error@ == (BackendErrorView { kind, message: message@ }),
    {
        BackendError { kind, message }
    }

    /// The protocol category of this failure. The message plays no part in it.
    pub fn category(&self) -> (category: ErrorCategory)
        ensures
            category == category_of(self@.kind),
    {
        self.kind.category()
    }

    /// A copy of this failure.
    pub fn duplicate(&self) -> (copy: BackendError)
        ensures
            copy@ == self@,
    {
        BackendError { kind: self.kind, message: self.message.clone() }
    }
}

/// Every kind of failure falls in exactly one category: a missing object is not found;
/// refused credentials and an object in cold storage are forbidden; malformed
/// parameters are a bad request; a failed dispatch and everything unclassified are
/// internal.
pub proof fn law_every_kind_has_one_category(kind: ErrorKind)
    ensures
        category_of(kind) == ErrorCategory::NotFound <==> kind == ErrorKind::NoSuchKey,
        category_of(kind) == ErrorCategory::Forbidden <==> kind == ErrorKind::Credentials || kind
            == ErrorKind::ObjectNotInActiveTier,
        category_of(kind) == ErrorCategory::BadRequest <==> kind == ErrorKind::Validation,
        category_of(kind) == ErrorCategory::Internal <==> kind == ErrorKind::HttpDispatch || kind
            == ErrorKind::Unknown,
{
}

/// Each category has a status code of its own, in the range of client and server
/// errors.
pub proof fn law_categories_have_distinct_codes(a: ErrorCategory, b: ErrorCategory)
    ensures
        400 <= status_code_of(a) < 600,
        status_code_of(a) == status_code_of(b) <==> a == b,
{
}

} // verus!
