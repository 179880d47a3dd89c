//! What the gateway asks of the two stores, what they answer, and what the
//! caller finally receives.

use vstd::prelude::*;
use vstd::string::StringExecFns;
use crate::entities::file::{FileRow, Model};
use crate::entities::user;
use crate::error::{database_error, storage_error, AppError, DatabaseFailure, DatabaseFailureView, ErrorView, StorageErrorKind};
use crate::identity::{extract_user_id, identity_of};
use crate::text::opt_text;

verus! {

/// The view of a row that may be absent.
pub open spec fn opt_row(r: Option<Model>) -> Option<FileRow> {
    match r {
        Some(m) => Some(m@),
        None => None,
    }
}

/// What accompanies the content of a file on its way to the caller.
#[derive(Clone, Debug, PartialEq, Eq)]
pub struct TransferMetadata {
    pub content_type: String,
    pub content_length: i64,
    /// Suggests the file's name to the caller.
    pub content_disposition: String,
    /// The version token of what is transferred.
    pub version: String,
    /// Cache validator: the version token in double quotes.
    pub etag: String,
}

/// Mathematical value of a [`TransferMetadata`].
pub struct TransferView {
    pub content_type: Seq<char>,
    pub content_length: i64,
    pub content_disposition: Seq<char>,
    pub version: Seq<char>,
    pub etag: Seq<char>,
}

impl View for TransferMetadata {
    type V = TransferView;

    open spec fn view(&self) -> TransferView {
        TransferView {
            content_type: self.content_type@,
            content_length: self.content_length,
            content_disposition: self.content_disposition@,
            version: self.version@,
            etag: self.etag@,
        }
    }
}

/// The transfer metadata of a row: all of it comes from the row, as it was
/// captured when the version was written.
pub open spec fn transfer_of(row: FileRow) -> TransferView {
    TransferView {
        content_type: row.content_type,
        content_length: row.content_size,
        content_disposition: "attachment; filename=\""@ + row.file_name + "\""@,
        version: row.version,
        etag: "\""@ + row.version + "\""@,
    }
}

impl TransferMetadata {
    /// Composes the transfer metadata of a row.
    pub fn of(row: Model) -> (m: TransferMetadata)
        ensures
            m@ == transfer_of(row@),
    {
        let mut content_disposition = "attachment; filename=\"".to_owned();
        content_disposition.append(row.file_name.as_str());
        content_disposition.append("\"");
        let mut etag = "\"".to_owned();
        etag.append(row.version.as_str());
        etag.append("\"");
        TransferMetadata {
            content_type: row.content_type,
            content_length: row.content_size,
            content_disposition,
            version: row.version,
            etag,
        }
    }
}

/// The version to name in a call to the blob store for a row's version
/// token: the token, or none where the store assigned none when the version
/// was written.
pub open spec fn version_selector(token: Seq<char>) -> Option<Seq<char>> {
    if token.len() == 0 {
        None
    } else {
        Some(token)
    }
}

/// The version to name in a call to the blob store.
pub fn blob_version(token: &String) -> (v: Option<&String>)
    ensures
        match v {
            Some(t) => version_selector(token@) == Some(t@),
            None => version_selector(token@) is None,
        },
{
    if token.as_str().is_empty() {
        None
    } else {
        Some(token)
    }
}

/// What a caller receives when an operation succeeds.
#[derive(Clone, Debug, PartialEq, Eq)]
pub enum Response {
    /// A version was written (status 201).
    Created { message: String, file_path: String, file_key: u128, version: String },
    /// The content of a version, with its metadata (status 200).
    Object { metadata: TransferMetadata, body: Vec<u8> },
    /// The metadata of a version alone (status 200).
    Metadata { metadata: TransferMetadata },
    /// A version was deleted (status 200).
    Deleted { message: String, file_path: String, version: String },
}

/// Mathematical value of a [`Response`].
pub enum ResponseView {
    Created { message: Seq<char>, file_path: Seq<char>, file_key: u128, version: Seq<char> },
    Object { metadata: TransferView, body: Seq<u8> },
    Metadata { metadata: TransferView },
    Deleted { message: Seq<char>, file_path: Seq<char>, version: Seq<char> },
}

impl View for Response {
    type V = ResponseView;

    open spec fn view(&self) -> ResponseView {
        match self {
            Response::Created { message, file_path, file_key, version } => ResponseView::Created {
                message: message@,
                file_path: file_path@,
                file_key: *file_key,
                version: version@,
            },
            Response::Object { metadata, body } => ResponseView::Object {
                metadata: metadata@,
                body: body@,
            },
            Response::Metadata { metadata } => ResponseView::Metadata { metadata: metadata@ },
            Response::Deleted { message, file_path, version } => ResponseView::Deleted {
                message: message@,
                file_path: file_path@,
                version: version@,
            },
        }
    }
}

/// The status of a successful write.
pub const STATUS_CREATED: u16 = 201;

/// The status of any other success.
pub const STATUS_OK: u16 = 200;

/// The HTTP status that goes with a response.
pub open spec fn response_status(r: ResponseView) -> u16 {
    match r {
        ResponseView::Created { .. } => 201,
        _ => 200,
    }
}

impl Response {
    /// The HTTP status of this response.
    pub fn status(&self) -> (s: u16)
        ensures
            s == response_status(self@),
    {
        match self {
            Response::Created { .. } => STATUS_CREATED,
            _ => STATUS_OK,
        }
    }
}

/// The view of the outcome of an operation.
pub open spec fn outcome_view(r: Result<Response, AppError>) -> Result<ResponseView, ErrorView> {
    match r {
        Ok(v) => Ok(v@),
        Err(e) => Err(e@),
    }
}

/// One thing to do next: a call to one of the stores, or the answer to the
/// caller, which ends the operation.
#[derive(Debug, PartialEq, Eq)]
pub enum Command {
    /// Look for the user's row.
    FindUser { user_id: u128 },
    /// Insert a user row.
    InsertUser { row: user::Model },
    /// Write the request's payload to the blob store under this key.
    WriteBlob { file_key: u128 },
    /// Open a transaction and look in it for the latest row of the path.
    FindLatest { user_id: u128, file_path: String },
    /// In the open transaction: mark the row `demote` as no longer latest,
    /// insert `row`, and commit.
    CommitVersion { demote: Option<u128>, row: Model },
    /// Look for the row of the path with this version token, or, without a
    /// token, for its latest row.
    Resolve { user_id: u128, file_path: String, version: Option<String> },
    /// Fetch the content of a version from the blob store.
    ReadBlob { file_key: u128, version: String },
    /// Ask the blob store whether it holds a version.
    ProbeBlob { file_key: u128, version: String },
    /// Delete a version from the blob store.
    DeleteBlob { file_key: u128, version: String },
    /// Delete the row with this identity.
    DeleteRow { id: u128 },
    /// Answer the caller.
    Respond(Result<Response, AppError>),
}

/// Mathematical value of a [`Command`].
pub enum CommandView {
    FindUser { user_id: u128 },
    InsertUser { row: user::Model },
    WriteBlob { file_key: u128 },
    FindLatest { user_id: u128, file_path: Seq<char> },
    CommitVersion { demote: Option<u128>, row: FileRow },
    Resolve { user_id: u128, file_path: Seq<char>, version: Option<Seq<char>> },
    ReadBlob { file_key: u128, version: Seq<char> },
    ProbeBlob { file_key: u128, version: Seq<char> },
    DeleteBlob { file_key: u128, version: Seq<char> },
    DeleteRow { id: u128 },
    Respond(Result<ResponseView, ErrorView>),
}

impl View for Command {
    type V = CommandView;

    open spec fn view(&self) -> CommandView {
        match self {
            Command::FindUser { user_id } => CommandView::FindUser { user_id: *user_id },
            Command::InsertUser { row } => CommandView::InsertUser { row: *row },
            Command::WriteBlob { file_key } => CommandView::WriteBlob { file_key: *file_key },
            Command::FindLatest { user_id, file_path } => CommandView::FindLatest {
                user_id: *user_id,
                file_path: file_path@,
            },
            Command::CommitVersion { demote, row } => CommandView::CommitVersion {
                demote: *demote,
                row: row@,
            },
            Command::Resolve { user_id, file_path, version } => CommandView::Resolve {
                user_id: *user_id,
                file_path: file_path@,
                version: opt_text(*version),
            },
            Command::ReadBlob { file_key, version } => CommandView::ReadBlob {
                file_key: *file_key,
                version: version@,
            },
            Command::ProbeBlob { file_key, version } => CommandView::ProbeBlob {
                file_key: *file_key,
                version: version@,
            },
            Command::DeleteBlob { file_key, version } => CommandView::DeleteBlob {
                file_key: *file_key,
                version: version@,
            },
            Command::DeleteRow { id } => CommandView::DeleteRow { id: *id },
            Command::Respond(r) => CommandView::Respond(outcome_view(*r)),
        }
    }
}

/// What came back from the store that was called last.
#[derive(Clone, Debug, PartialEq, Eq)]
pub enum Reply {
    /// Whether the user has a row.
    User(bool),
    /// The row that was looked for, if there is one.
    Row(Option<Model>),
    /// The call succeeded and has nothing to report.
    Done,
    /// The payload was written; the store's version token, if it gave one.
    BlobWritten(Option<String>),
    /// The content of the version asked for.
    Blob(Vec<u8>),
    /// The blob store holds the version asked for.
    BlobPresent,
    /// The blob store failed.
    StorageFailed(StorageErrorKind),
    /// The metadata store failed.
    DatabaseFailed(DatabaseFailure),
}

/// Mathematical value of a [`Reply`].
pub enum ReplyView {
    User(bool),
    Row(Option<FileRow>),
    Done,
    BlobWritten(Option<Seq<char>>),
    Blob(Seq<u8>),
    BlobPresent,
    StorageFailed(StorageErrorKind),
    DatabaseFailed(DatabaseFailureView),
}

impl View for Reply {
    type V = ReplyView;

    open spec fn view(&self) -> ReplyView {
        match self {
            Reply::User(u) => ReplyView::User(*u),
            Reply::Row(r) => ReplyView::Row(opt_row(*r)),
            Reply::Done => ReplyView::Done,
            Reply::BlobWritten(v) => ReplyView::BlobWritten(opt_text(*v)),
            Reply::Blob(b) => ReplyView::Blob(b@),
            Reply::BlobPresent => ReplyView::BlobPresent,
            Reply::StorageFailed(k) => ReplyView::StorageFailed(*k),
            Reply::DatabaseFailed(f) => ReplyView::DatabaseFailed(f@),
        }
    }
}

/// The error that ends an operation when `reply` is not the answer that the
/// operation was waiting for: the store's failure, classified, or an
/// internal error where the reply is out of place.
pub open spec fn refusal(reply: ReplyView) -> ErrorView {
    match reply {
        ReplyView::StorageFailed(kind) => storage_error(kind),
        ReplyView::DatabaseFailed(failure) => database_error(failure),
        _ => ErrorView::InternalError("Unexpected reply from a store"@),
    }
}

impl Reply {
    /// The error that ends an operation on this reply.
    pub fn into_error(self) -> (e: AppError)
        ensures
            e@ == refusal(self@),
    {
        match self {
            Reply::StorageFailed(kind) => AppError::from_storage(kind),
            Reply::DatabaseFailed(failure) => AppError::from_database(failure),
            _ => AppError::InternalError("Unexpected reply from a store".to_owned()),
        }
    }
}

/// How far an operation on one stored version has come.
#[derive(Clone, Debug, PartialEq, Eq)]
pub enum ObjectStage {
    /// The row is being looked for.
    Resolving,
    /// The row is known and the blob store has been called for its content.
    Holding(Model),
    /// The blob is gone and the row is being deleted.
    RemovingRow(Model),
    /// The caller has been answered.
    Finished,
}

/// Mathematical value of an [`ObjectStage`].
pub enum ObjectStageView {
    Resolving,
    Holding(FileRow),
    RemovingRow(FileRow),
    Finished,
}

impl View for ObjectStage {
    type V = ObjectStageView;

    open spec fn view(&self) -> ObjectStageView {
        match self {
            ObjectStage::Resolving => ObjectStageView::Resolving,
            ObjectStage::Holding(row) => ObjectStageView::Holding(row@),
            ObjectStage::RemovingRow(row) => ObjectStageView::RemovingRow(row@),
            ObjectStage::Finished => ObjectStageView::Finished,
        }
    }
}

/// The first decision of an operation on a stored version: without a
/// well-formed identity the request is refused, otherwise the row is looked
/// for, by the version token where one was given and else as the latest.
pub open spec fn begin_resolve(
    identity: Option<Seq<char>>,
    file_path: Seq<char>,
    version: Option<Seq<char>>,
) -> (ObjectStageView, CommandView) {
    match identity_of(identity) {
        Ok(user_id) => (
            ObjectStageView::Resolving,
            CommandView::Resolve { user_id, file_path, version },
        ),
        Err(e) => (ObjectStageView::Finished, CommandView::Respond(Err(e))),
    }
}

/// Starts an operation on a stored version.
pub fn start_resolve(identity: &Option<String>, file_path: String, version: Option<String>) -> (out:
    (ObjectStage, Command))
    ensures
        out.0@ == begin_resolve(opt_text(*identity), file_path@, opt_text(version)).0,
        out.1@ == begin_resolve(opt_text(*identity), file_path@, opt_text(version)).1,
{
    match extract_user_id(identity) {
        Ok(user_id) => (ObjectStage::Resolving, Command::Resolve { user_id, file_path, version }),
        Err(e) => (ObjectStage::Finished, Command::Respond(Err(e))),
    }
}

} // verus!
