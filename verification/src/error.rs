//! The domain error taxonomy and the mapping of backend failures into it.

use vstd::prelude::*;

verus! {

/// How a blob-store call failed, as classified where the failure is produced.
#[derive(Clone, Copy, Debug, PartialEq, Eq, Structural)]
pub enum StorageErrorKind {
    /// The store reports that the object, or the requested version of it, is absent.
    NotFound,
    /// The store knows no object under the key.
    NoSuchKey,
    /// The call did not finish in time.
    StorageTimeout,
    /// The store answered with something that could not be read.
    Response,
    /// Any other failure: the request could not be built or sent, or the
    /// store refused it.
    Other,
}

/// How a metadata-store call failed.
#[derive(Clone, Debug, PartialEq, Eq)]
pub struct DatabaseFailure {
    /// The call did not finish in time.
    pub timed_out: bool,
    /// Diagnostic text of the backend, for the server's log only.
    pub detail: String,
}

/// Mathematical value of a [`DatabaseFailure`].
pub struct DatabaseFailureView {
    pub timed_out: bool,
    pub detail: Seq<char>,
}

impl View for DatabaseFailure {
    type V = DatabaseFailureView;

    open spec fn view(&self) -> DatabaseFailureView {
        DatabaseFailureView { timed_out: self.timed_out, detail: self.detail@ }
    }
}

/// A failure as the gateway reports it.
#[derive(Clone, Debug, PartialEq, Eq)]
pub enum AppError {
    NotFound(String),
    TimeoutError(String),
    StorageError(StorageErrorKind),
    DatabaseError(String),
    InternalError(String),
    BadRequest(String),
}

/// Mathematical value of an [`AppError`].
pub enum ErrorView {
    NotFound(Seq<char>),
    TimeoutError(Seq<char>),
    StorageError(StorageErrorKind),
    DatabaseError(Seq<char>),
    InternalError(Seq<char>),
    BadRequest(Seq<char>),
}

impl View for AppError {
    type V = ErrorView;

    open spec fn view(&self) -> ErrorView {
        match self {
            AppError::NotFound(m) => ErrorView::NotFound(m@),
            AppError::TimeoutError(m) => ErrorView::TimeoutError(m@),
            AppError::StorageError(k) => ErrorView::StorageError(*k),
            AppError::DatabaseError(d) => ErrorView::DatabaseError(d@),
            AppError::InternalError(d) => ErrorView::InternalError(d@),
            AppError::BadRequest(m) => ErrorView::BadRequest(m@),
        }
    }
}

/// The error that a blob-store failure of kind `kind` becomes: absence reads
/// as not-found, a timeout as a timeout, everything else as a storage error.
pub open spec fn storage_error(kind: StorageErrorKind) -> ErrorView {
    match kind {
        StorageErrorKind::NotFound => ErrorView::NotFound("Object not found"@),
        StorageErrorKind::NoSuchKey => ErrorView::NotFound("No object found for key provided"@),
        StorageErrorKind::StorageTimeout => ErrorView::TimeoutError(
            "Storage request went on timeout"@,
        ),
        StorageErrorKind::Response => ErrorView::StorageError(kind),
        StorageErrorKind::Other => ErrorView::StorageError(kind),
    }
}

/// The error that a metadata-store failure becomes.
pub open spec fn database_error(failure: DatabaseFailureView) -> ErrorView {
    if failure.timed_out {
        ErrorView::TimeoutError("Database request went on timeout"@)
    } else {
        ErrorView::DatabaseError(failure.detail)
    }
}

/// The HTTP status that goes with an error.
pub open spec fn status_of(e: ErrorView) -> u16 {
    match e {
        ErrorView::BadRequest(_) => 400,
        ErrorView::NotFound(_) => 404,
        ErrorView::TimeoutError(_) => 408,
        ErrorView::StorageError(_) => 500,
        ErrorView::DatabaseError(_) => 500,
        ErrorView::InternalError(_) => 500,
    }
}

/// The message shown to the caller: the short message of a client error or a
/// timeout, and one fixed sentence for every server-side error.
pub open spec fn message_of(e: ErrorView) -> Seq<char> {
    match e {
        ErrorView::BadRequest(m) => m,
        ErrorView::NotFound(m) => m,
        ErrorView::TimeoutError(m) => m,
        ErrorView::StorageError(_) => "Internal server error"@,
        ErrorView::DatabaseError(_) => "Internal server error"@,
        ErrorView::InternalError(_) => "Internal server error"@,
    }
}

/// An error response: the status and the text of the body's `error` field.
#[derive(Clone, Debug, PartialEq, Eq)]
pub struct ErrorResponse {
    pub status: u16,
    pub error: String,
}

impl AppError {
    /// Classifies a blob-store failure.
    pub fn from_storage(kind: StorageErrorKind) -> (e: AppError)
        ensures
            e@ == storage_error(kind),
    {
        match kind {
            StorageErrorKind::NotFound => AppError::NotFound("Object not found".to_owned()),
            StorageErrorKind::NoSuchKey => AppError::NotFound(
                "No object found for key provided".to_owned(),
            ),
            StorageErrorKind::StorageTimeout => AppError::TimeoutError(
                "Storage request went on timeout".to_owned(),
            ),
            StorageErrorKind::Response => AppError::StorageError(kind),
            StorageErrorKind::Other => AppError::StorageError(kind),
        }
    }

    /// Classifies a metadata-store failure.
    pub fn from_database(failure: DatabaseFailure) -> (e: AppError)
        ensures
            e@ == database_error(failure@),
    {
        if failure.timed_out {
            AppError::TimeoutError("Database request went on timeout".to_owned())
        } else {
            AppError::DatabaseError(failure.detail)
        }
    }

    /// The HTTP status of this error.
    pub fn status(&self) -> (s: u16)
        ensures
            s == status_of(self@),
    {
        match self {
            AppError::BadRequest(_) => 400,
            AppError::NotFound(_) => 404,
            AppError::TimeoutError(_) => 408,
            AppError::StorageError(_) => 500,
            AppError::DatabaseError(_) => 500,
            AppError::InternalError(_) => 500,
        }
    }

    /// The response for this error. Backend detail never reaches it.
    pub fn into_response(self) -> (r: ErrorResponse)
        ensures
            r.status == status_of(self@),
            r.error@ == message_of(self@),
    {
        let status: u16 = self.status();
        let error = match self {
            AppError::BadRequest(m) => m,
            AppError::NotFound(m) => m,
            AppError::TimeoutError(m) => m,
            AppError::StorageError(_) => "Internal server error".to_owned(),
            AppError::DatabaseError(_) => "Internal server error".to_owned(),
            AppError::InternalError(_) => "Internal server error".to_owned(),
        };
        ErrorResponse { status, error }
    }
}

/// Every server-side error is answered with status 500 and the same message,
/// whatever its cause.
pub proof fn lemma_server_errors_look_alike(a: ErrorView, b: ErrorView)
    requires
        status_of(a) == 500,
        status_of(b) == 500,
    ensures
        message_of(a) == message_of(b),
{
}

} // verus!
