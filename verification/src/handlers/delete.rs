//! Deleting a version.

use vstd::prelude::*;
use crate::error::ErrorView;
use crate::handlers::get::{not_found, refused};
use crate::handlers::protocol::{begin_resolve, refusal, start_resolve, Command, CommandView, ObjectStage, ObjectStageView, Reply, ReplyView, Response, ResponseView};
use crate::text::opt_text;

verus! {

/// The next decision of a delete, given how far it has come and what the
/// store that was called last replied.
///
/// The blob goes first and the row second, so that a delete cut short leaves
/// a row without a blob, which reads as absent, and never a blob that no row
/// leads to. No other version is made the latest in place of a deleted one.
pub open spec fn delete_step(stage: ObjectStageView, reply: ReplyView) -> (
    ObjectStageView,
    CommandView,
) {
    match stage {
        ObjectStageView::Resolving => match reply {
            ReplyView::Row(Some(row)) => (
                ObjectStageView::Holding(row),
                CommandView::DeleteBlob { file_key: row.file_key, version: row.version },
            ),
            ReplyView::Row(None) => (
                ObjectStageView::Finished,
                CommandView::Respond(Err(ErrorView::NotFound("File not found"@))),
            ),
            _ => (ObjectStageView::Finished, CommandView::Respond(Err(refusal(reply)))),
        },
        ObjectStageView::Holding(row) => match reply {
            ReplyView::Done => (
                ObjectStageView::RemovingRow(row),
                CommandView::DeleteRow { id: row.id },
            ),
            _ => (ObjectStageView::Finished, CommandView::Respond(Err(refusal(reply)))),
        },
        ObjectStageView::RemovingRow(row) => match reply {
            ReplyView::Done => (
                ObjectStageView::Finished,
                CommandView::Respond(
                    Ok(
                        ResponseView::Deleted {
                            message: "Object deleted successfully"@,
                            file_path: row.file_path,
                            version: row.version,
                        },
                    ),
                ),
            ),
            _ => (ObjectStageView::Finished, CommandView::Respond(Err(refusal(reply)))),
        },
        ObjectStageView::Finished => (
            ObjectStageView::Finished,
            CommandView::Respond(Err(refusal(reply))),
        ),
    }
}

/// Starts a delete: reads the identity and asks for the row, by the version
/// token where one is given and else the latest.
pub fn delete_object(identity: &Option<String>, file_path: String, version: Option<String>) -> (out:
    (ObjectStage, Command))
    ensures
        out.0@ == begin_resolve(opt_text(*identity), file_path@, opt_text(version)).0,
        out.1@ == begin_resolve(opt_text(*identity), file_path@, opt_text(version)).1,
{
    start_resolve(identity, file_path, version)
}

/// Continues a delete.
pub fn delete_object_step(stage: ObjectStage, reply: Reply) -> (out: (ObjectStage, Command))
    ensures
        out.0@ == delete_step(stage@, reply@).0,
        out.1@ == delete_step(stage@, reply@).1,
{
    match stage {
        ObjectStage::Resolving => match reply {
            Reply::Row(Some(row)) => {
                let command = Command::DeleteBlob {
                    file_key: row.file_key,
                    version: row.version.clone(),
                };
                (ObjectStage::Holding(row), command)
            },
            Reply::Row(None) => not_found(),
            other => refused(other),
        },
        ObjectStage::Holding(row) => match reply {
            Reply::Done => {
                let id: u128 = row.id;
                (ObjectStage::RemovingRow(row), Command::DeleteRow { id })
            },
            other => refused(other),
        },
        ObjectStage::RemovingRow(row) => match reply {
            Reply::Done => (
                ObjectStage::Finished,
                Command::Respond(
                    Ok(
                        Response::Deleted {
                            message: "Object deleted successfully".to_owned(),
                            file_path: row.file_path,
                            version: row.version,
                        },
                    ),
                ),
            ),
            other => refused(other),
        },
        ObjectStage::Finished => refused(reply),
    }
}

} // verus!
