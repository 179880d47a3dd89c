//! Writing a new version of a file.

use vstd::prelude::*;
use crate::clock::current_time;
use crate::entities::file::{file_name, file_name_of, new_version, ActiveModel};
use crate::entities::user;
use crate::entities::user::new_user;
use crate::handlers::protocol::{refusal, Command, CommandView, Reply, ReplyView, Response, ResponseView};
use crate::identity::{extract_user_id, fresh_uuid, identity_of};
use crate::text::{opt_text, text_or};

verus! {

/// What a write carries from step to step.
#[derive(Clone, Debug, PartialEq, Eq)]
pub struct PutJob {
    pub user_id: u128,
    pub file_path: String,
    pub file_name: String,
    pub content_type: String,
    pub content_size: i64,
}

/// Mathematical value of a [`PutJob`].
pub struct PutJobView {
    pub user_id: u128,
    pub file_path: Seq<char>,
    pub file_name: Seq<char>,
    pub content_type: Seq<char>,
    pub content_size: i64,
}

impl View for PutJob {
    type V = PutJobView;

    open spec fn view(&self) -> PutJobView {
        PutJobView {
            user_id: self.user_id,
            file_path: self.file_path@,
            file_name: self.file_name@,
            content_type: self.content_type@,
            content_size: self.content_size,
        }
    }
}

/// How far a write has come.
#[derive(Clone, Debug, PartialEq, Eq)]
pub enum PutStage {
    /// The user's row is being looked for.
    FindingUser(PutJob),
    /// The user was unknown and is being inserted.
    CreatingUser(PutJob),
    /// The payload is being written under the key.
    WritingBlob(PutJob, u128),
    /// The payload is stored under the key with the version token; the
    /// transaction is open and the path's latest row is being looked for.
    FindingLatest(PutJob, u128, String),
    /// The new row is being committed.
    Committing { file_path: String, file_key: u128, version: String, replaced: bool },
    /// The caller has been answered.
    Finished,
}

/// Mathematical value of a [`PutStage`].
pub enum PutStageView {
    FindingUser(PutJobView),
    CreatingUser(PutJobView),
    WritingBlob(PutJobView, u128),
    FindingLatest(PutJobView, u128, Seq<char>),
    Committing { file_path: Seq<char>, file_key: u128, version: Seq<char>, replaced: bool },
    Finished,
}

impl View for PutStage {
    type V = PutStageView;

    open spec fn view(&self) -> PutStageView {
        match self {
            PutStage::FindingUser(job) => PutStageView::FindingUser(job@),
            PutStage::CreatingUser(job) => PutStageView::CreatingUser(job@),
            PutStage::WritingBlob(job, key) => PutStageView::WritingBlob(job@, *key),
            PutStage::FindingLatest(job, key, version) => PutStageView::FindingLatest(
                job@,
                *key,
                version@,
            ),
            PutStage::Committing { file_path, file_key, version, replaced } => {
                PutStageView::Committing {
                    file_path: file_path@,
                    file_key: *file_key,
                    version: version@,
                    replaced: *replaced,
                }
            },
            PutStage::Finished => PutStageView::Finished,
        }
    }
}

/// What a step of a write takes from outside the request: a fresh blob key,
/// a fresh row identity and the time. A step uses what it needs of them.
#[derive(Clone, Copy, Debug, PartialEq, Eq)]
pub struct Draw {
    pub file_key: u128,
    pub row_id: u128,
    pub now: i64,
}

/// The content type of a write: the one the request names, else the one
/// guessed from the path.
pub open spec fn content_type_for(named: Option<Seq<char>>, guessed: Seq<char>) -> Seq<char> {
    text_or(named, guessed)
}

/// The first decision of a write: without a well-formed identity the request
/// is refused, otherwise the user's row is looked for.
pub open spec fn put_begin(
    identity: Option<Seq<char>>,
    file_path: Seq<char>,
    content_type: Option<Seq<char>>,
    guessed: Seq<char>,
    content_size: i64,
) -> (PutStageView, CommandView) {
    match identity_of(identity) {
        Ok(user_id) => (
            PutStageView::FindingUser(
                PutJobView {
                    user_id,
                    file_path,
                    file_name: file_name(file_path),
                    content_type: content_type_for(content_type, guessed),
                    content_size,
                },
            ),
            CommandView::FindUser { user_id },
        ),
        Err(e) => (PutStageView::Finished, CommandView::Respond(Err(e))),
    }
}

/// The message of a successful write.
pub open spec fn created_message(replaced: bool) -> Seq<char> {
    if replaced {
        "New object version created successfully"@
    } else {
        "New object created successfully"@
    }
}

/// A write ends with this error on `reply`.
pub open spec fn put_fails(reply: ReplyView) -> (PutStageView, CommandView) {
    (PutStageView::Finished, CommandView::Respond(Err(refusal(reply))))
}

/// The identity of a row that may be absent.
pub open spec fn row_id_of(row: Option<crate::entities::file::FileRow>) -> Option<u128> {
    match row {
        Some(r) => Some(r.id),
        None => None,
    }
}

/// The version token of a write: the one the store gave, else the empty one.
pub open spec fn token_or_empty(token: Option<Seq<char>>) -> Seq<char> {
    text_or(token, Seq::<char>::empty())
}

/// The next decision of a write, given how far it has come and what the
/// store that was called last replied.
///
/// In order: the user is provisioned if unknown; a fresh key is taken and the
/// payload written under it; then, in one transaction, the path's latest row
/// is demoted, if there is one, and the new row is inserted as the latest.
/// Any failure ends the write at once. Nothing is undone: a payload that was
/// written stays where it is.
pub open spec fn put_step(stage: PutStageView, reply: ReplyView, draw: Draw) -> (
    PutStageView,
    CommandView,
) {
    match stage {
        PutStageView::FindingUser(job) => match reply {
            ReplyView::User(true) => (
                PutStageView::WritingBlob(job, draw.file_key),
                CommandView::WriteBlob { file_key: draw.file_key },
            ),
            ReplyView::User(false) => (
                PutStageView::CreatingUser(job),
                CommandView::InsertUser { row: new_user(job.user_id, 0, draw.now) },
            ),
            _ => put_fails(reply),
        },
        PutStageView::CreatingUser(job) => match reply {
            ReplyView::Done => (
                PutStageView::WritingBlob(job, draw.file_key),
                CommandView::WriteBlob { file_key: draw.file_key },
            ),
            _ => put_fails(reply),
        },
        PutStageView::WritingBlob(job, file_key) => match reply {
            ReplyView::BlobWritten(token) => (
                PutStageView::FindingLatest(job, file_key, token_or_empty(token)),
                CommandView::FindLatest { user_id: job.user_id, file_path: job.file_path },
            ),
            _ => put_fails(reply),
        },
        PutStageView::FindingLatest(job, file_key, version) => match reply {
            ReplyView::Row(latest) => (
                PutStageView::Committing {
                    file_path: job.file_path,
                    file_key,
                    version,
                    replaced: latest is Some,
                },
                CommandView::CommitVersion {
                    demote: row_id_of(latest),
                    row: new_version(
                        draw.row_id,
                        draw.now,
                        file_key,
                        job.user_id,
                        job.file_name,
                        job.file_path,
                        job.content_type,
                        job.content_size,
                        version,
                    ),
                },
            ),
            _ => put_fails(reply),
        },
        PutStageView::Committing { file_path, file_key, version, replaced } => match reply {
            ReplyView::Done => (
                PutStageView::Finished,
                CommandView::Respond(
                    Ok(
                        ResponseView::Created {
                            message: created_message(replaced),
                            file_path,
                            file_key,
                            version,
                        },
                    ),
                ),
            ),
            _ => put_fails(reply),
        },
        PutStageView::Finished => put_fails(reply),
    }
}

/// Calls `mime_guess::from_path` and `MimeGuess::first_or_octet_stream`, and
/// hands back the media type as text. Nothing is claimed of it: how a path
/// splits into name and extension depends on the platform.
#[verifier::external_body]
pub(crate) fn guess_content_type(path: &str) -> (media_type: String) {
    mime_guess::from_path(path).first_or_octet_stream().to_string()
}

/// Starts a write, `guessed` being the content type guessed from the path.
pub fn put_object_guessed(
    identity: &Option<String>,
    file_path: String,
    content_type: Option<String>,
    guessed: String,
    content_size: i64,
) -> (out: (PutStage, Command))
    ensures
        out.0@ == put_begin(
            opt_text(*identity),
            file_path@,
            opt_text(content_type),
            guessed@,
            content_size,
        ).0,
        out.1@ == put_begin(
            opt_text(*identity),
            file_path@,
            opt_text(content_type),
            guessed@,
            content_size,
        ).1,
{
    match extract_user_id(identity) {
        Ok(user_id) => {
            let file_name = file_name_of(file_path.as_str());
            let content_type = match content_type {
                Some(t) => t,
                None => guessed,
            };
            (
                PutStage::FindingUser(
                    PutJob { user_id, file_path, file_name, content_type, content_size },
                ),
                Command::FindUser { user_id },
            )
        },
        Err(e) => (PutStage::Finished, Command::Respond(Err(e))),
    }
}

/// Starts a write: reads the identity, fixes the file's name and content
/// type, and asks for the user's row. Where the request names no content
/// type, the one guessed from the path stands in.
pub fn put_object(
    identity: &Option<String>,
    file_path: String,
    content_type: Option<String>,
    content_size: i64,
) -> (out: (PutStage, Command))
    ensures
        exists|guessed: Seq<char>|
            {
                &&& out.0@ == (#[trigger] put_begin(
                    opt_text(*identity),
                    file_path@,
                    opt_text(content_type),
                    guessed,
                    content_size,
                )).0
                &&& out.1@ == put_begin(
                    opt_text(*identity),
                    file_path@,
                    opt_text(content_type),
                    guessed,
                    content_size,
                ).1
            },
{
    let guessed = guess_content_type(file_path.as_str());
    put_object_guessed(identity, file_path, content_type, guessed, content_size)
}

/// Ends a write on a reply that it was not waiting for.
fn put_refused(reply: Reply) -> (out: (PutStage, Command))
    ensures
        out.0@ == put_fails(reply@).0,
        out.1@ == put_fails(reply@).1,
{
    (PutStage::Finished, Command::Respond(Err(reply.into_error())))
}

/// Continues a write with what was drawn for this step.
pub fn put_object_step_with(stage: PutStage, reply: Reply, draw: Draw) -> (out: (PutStage, Command))
    ensures
        out.0@ == put_step(stage@, reply@, draw).0,
        out.1@ == put_step(stage@, reply@, draw).1,
{
    match stage {
        PutStage::FindingUser(job) => match reply {
            Reply::User(true) => (
                PutStage::WritingBlob(job, draw.file_key),
                Command::WriteBlob { file_key: draw.file_key },
            ),
            Reply::User(false) => {
                let row = user::ActiveModel::stamped(job.user_id, 0, draw.now).row;
                (PutStage::CreatingUser(job), Command::InsertUser { row })
            },
            other => put_refused(other),
        },
        PutStage::CreatingUser(job) => match reply {
            Reply::Done => (
                PutStage::WritingBlob(job, draw.file_key),
                Command::WriteBlob { file_key: draw.file_key },
            ),
            other => put_refused(other),
        },
        PutStage::WritingBlob(job, file_key) => match reply {
            Reply::BlobWritten(token) => {
                let version = match token {
                    Some(t) => t,
                    None => String::new(),
                };
                let command = Command::FindLatest {
                    user_id: job.user_id,
                    file_path: job.file_path.clone(),
                };
                (PutStage::FindingLatest(job, file_key, version), command)
            },
            other => put_refused(other),
        },
        PutStage::FindingLatest(job, file_key, version) => match reply {
            Reply::Row(latest) => {
                let demote = match latest {
                    Some(row) => Some(row.id),
                    None => None,
                };
                let row = ActiveModel::with_identity(
                    draw.row_id,
                    draw.now,
                    file_key,
                    job.user_id,
                    job.file_name,
                    job.file_path.clone(),
                    job.content_type,
                    job.content_size,
                    version.clone(),
                ).row;
                (
                    PutStage::Committing {
                        file_path: job.file_path,
                        file_key,
                        version,
                        replaced: demote.is_some(),
                    },
                    Command::CommitVersion { demote, row },
                )
            },
            other => put_refused(other),
        },
        PutStage::Committing { file_path, file_key, version, replaced } => match reply {
            Reply::Done => {
                let message = if replaced {
                    "New object version created successfully".to_owned()
                } else {
                    "New object created successfully".to_owned()
                };
                (
                    PutStage::Finished,
                    Command::Respond(
                        Ok(Response::Created { message, file_path, file_key, version }),
                    ),
                )
            },
            other => put_refused(other),
        },
        PutStage::Finished => put_refused(reply),
    }
}

/// Continues a write: draws a fresh key, a fresh row identity and the time,
/// and decides on them.
pub fn put_object_step(stage: PutStage, reply: Reply) -> (out: (PutStage, Command))
    ensures
        exists|draw: Draw|
            {
                &&& out.0@ == (#[trigger] put_step(stage@, reply@, draw)).0
                &&& out.1@ == put_step(stage@, reply@, draw).1
            },
{
    let draw = Draw { file_key: fresh_uuid(), row_id: fresh_uuid(), now: current_time() };
    put_object_step_with(stage, reply, draw)
}

} // verus!
