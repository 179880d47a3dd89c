//! Reading the metadata of a version.

use vstd::prelude::*;
use crate::error::ErrorView;
use crate::handlers::get::{not_found, refused};
use crate::handlers::protocol::{begin_resolve, refusal, start_resolve, transfer_of, Command, CommandView, ObjectStage, ObjectStageView, Reply, ReplyView, Response, ResponseView, TransferMetadata};
use crate::text::opt_text;

verus! {

/// The next decision of a metadata read. It goes as a read of the content
/// does, but the blob store is only asked whether it holds the version, and
/// the metadata goes out alone.
pub open spec fn head_step(stage: ObjectStageView, reply: ReplyView) -> (
    ObjectStageView,
    CommandView,
) {
    match stage {
        ObjectStageView::Resolving => match reply {
            ReplyView::Row(Some(row)) => (
                ObjectStageView::Holding(row),
                CommandView::ProbeBlob { file_key: row.file_key, version: row.version },
            ),
            ReplyView::Row(None) => (
                ObjectStageView::Finished,
                CommandView::Respond(Err(ErrorView::NotFound("File not found"@))),
            ),
            _ => (ObjectStageView::Finished, CommandView::Respond(Err(refusal(reply)))),
        },
        ObjectStageView::Holding(row) => match reply {
            ReplyView::BlobPresent => (
                ObjectStageView::Finished,
                CommandView::Respond(Ok(ResponseView::Metadata { metadata: transfer_of(row) })),
            ),
            _ => (ObjectStageView::Finished, CommandView::Respond(Err(refusal(reply)))),
        },
        _ => (ObjectStageView::Finished, CommandView::Respond(Err(refusal(reply)))),
    }
}

/// Starts a metadata read: reads the identity and asks for the row, by the
/// version token where one is given and else the latest.
pub fn head_object(identity: &Option<String>, file_path: String, version: Option<String>) -> (out:
    (ObjectStage, Command))
    ensures
        out.0@ == begin_resolve(opt_text(*identity), file_path@, opt_text(version)).0,
        out.1@ == begin_resolve(opt_text(*identity), file_path@, opt_text(version)).1,
{
    start_resolve(identity, file_path, version)
}

/// Continues a metadata read.
pub fn head_object_step(stage: ObjectStage, reply: Reply) -> (out: (ObjectStage, Command))
    ensures
        out.0@ == head_step(stage@, reply@).0,
        out.1@ == head_step(stage@, reply@).1,
{
    match stage {
        ObjectStage::Resolving => match reply {
            Reply::Row(Some(row)) => {
                let command = Command::ProbeBlob {
                    file_key: row.file_key,
                    version: row.version.clone(),
                };
                (ObjectStage::Holding(row), command)
            },
            Reply::Row(None) => not_found(),
            other => refused(other),
        },
        ObjectStage::Holding(row) => match reply {
            Reply::BlobPresent => (
                ObjectStage::Finished,
                Command::Respond(Ok(Response::Metadata { metadata: TransferMetadata::of(row) })),
            ),
            other => refused(other),
        },
        _ => refused(reply),
    }
}

} // verus!
