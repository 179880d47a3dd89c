//! Reading the content of a version.

use vstd::prelude::*;
use crate::error::{AppError, ErrorView};
use crate::handlers::protocol::{begin_resolve, refusal, start_resolve, transfer_of, Command, CommandView, ObjectStage, ObjectStageView, Reply, ReplyView, Response, ResponseView, TransferMetadata};
use crate::text::opt_text;

verus! {

/// The next decision of a read, given how far it has come and what the store
/// that was called last replied.
///
/// A row that was not found ends the read with a not-found error. A row that
/// was found has its content fetched under the row's key and version token;
/// where the blob store no longer holds it, the read ends with a not-found
/// error too, like any other failure classified as absence. The content goes
/// out with the metadata composed from the row.
pub open spec fn get_step(stage: ObjectStageView, reply: ReplyView) -> (
    ObjectStageView,
    CommandView,
) {
    match stage {
        ObjectStageView::Resolving => match reply {
            ReplyView::Row(Some(row)) => (
                ObjectStageView::Holding(row),
                CommandView::ReadBlob { file_key: row.file_key, version: row.version },
            ),
            ReplyView::Row(None) => (
                ObjectStageView::Finished,
                CommandView::Respond(Err(ErrorView::NotFound("File not found"@))),
            ),
            _ => (ObjectStageView::Finished, CommandView::Respond(Err(refusal(reply)))),
        },
        ObjectStageView::Holding(row) => match reply {
            ReplyView::Blob(body) => (
                ObjectStageView::Finished,
                CommandView::Respond(
                    Ok(ResponseView::Object { metadata: transfer_of(row), body }),
                ),
            ),
            _ => (ObjectStageView::Finished, CommandView::Respond(Err(refusal(reply)))),
        },
        _ => (ObjectStageView::Finished, CommandView::Respond(Err(refusal(reply)))),
    }
}

/// Ends an operation on a reply that it was not waiting for.
pub(crate) fn refused(reply: Reply) -> (out: (ObjectStage, Command))
    ensures
        out.0@ == ObjectStageView::Finished,
        out.1@ == CommandView::Respond(Err(refusal(reply@))),
{
    (ObjectStage::Finished, Command::Respond(Err(reply.into_error())))
}

/// Ends an operation because no row matches.
pub(crate) fn not_found() -> (out: (ObjectStage, Command))
    ensures
        out.0@ == ObjectStageView::Finished,
        out.1@ == CommandView::Respond(Err(ErrorView::NotFound("File not found"@))),
{
    (
        ObjectStage::Finished,
        Command::Respond(Err(AppError::NotFound("File not found".to_owned()))),
    )
}

/// Starts a read: reads the identity and asks for the row, by the version
/// token where one is given and else the latest.
pub fn get_object(identity: &Option<String>, file_path: String, version: Option<String>) -> (out:
    (ObjectStage, Command))
    ensures
        out.0@ == begin_resolve(opt_text(*identity), file_path@, opt_text(version)).0,
        out.1@ == begin_resolve(opt_text(*identity), file_path@, opt_text(version)).1,
{
    start_resolve(identity, file_path, version)
}

/// Continues a read.
pub fn get_object_step(stage: ObjectStage, reply: Reply) -> (out: (ObjectStage, Command))
    ensures
        out.0@ == get_step(stage@, reply@).0,
        out.1@ == get_step(stage@, reply@).1,
{
    match stage {
        ObjectStage::Resolving => match reply {
            Reply::Row(Some(row)) => {
                let command = Command::ReadBlob {
                    file_key: row.file_key,
                    version: row.version.clone(),
                };
                (ObjectStage::Holding(row), command)
            },
            Reply::Row(None) => not_found(),
            other => refused(other),
        },
        ObjectStage::Holding(row) => match reply {
            Reply::Blob(body) => (
                ObjectStage::Finished,
                Command::Respond(Ok(Response::Object { metadata: TransferMetadata::of(row), body })),
            ),
            other => refused(other),
        },
        _ => refused(reply),
    }
}

} // verus!
