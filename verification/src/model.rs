//! The two stores as the gateway assumes them to behave while nothing fails,
//! and whole operations run against them.

use vstd::prelude::*;
use crate::entities::file::{file_name, new_version, FileRow};
use crate::error::{DatabaseFailureView, ErrorView, StorageErrorKind};
use crate::handlers::delete::delete_step;
use crate::handlers::get::get_step;
use crate::handlers::head::head_step;
use crate::handlers::protocol::{begin_resolve, transfer_of, CommandView, ObjectStageView, ReplyView, ResponseView};
use crate::handlers::put::{content_type_for, created_message, put_begin, put_step, row_id_of, token_or_empty, Draw, PutStageView};
use crate::identity::identity_of;

verus! {

/// The state of the two stores: the identities that have a user row, the
/// file rows in the order of their insertion, and the content that the blob
/// store holds under each key and version token.
pub struct World {
    pub users: Set<u128>,
    pub files: Seq<FileRow>,
    pub blobs: Map<(u128, Seq<char>), Seq<u8>>,
}

/// Whether a row is the one asked for: it belongs to the user and the path,
/// and it carries the version token, or, where none is given, is the latest.
pub open spec fn selects(
    row: FileRow,
    user_id: u128,
    file_path: Seq<char>,
    version: Option<Seq<char>>,
) -> bool {
    &&& row.user_id == user_id
    &&& row.file_path == file_path
    &&& match version {
        Some(token) => row.version == token,
        None => row.is_latest,
    }
}

/// Whether row `i` is asked for and no row before it is.
pub open spec fn is_first_match(
    rows: Seq<FileRow>,
    i: int,
    user_id: u128,
    file_path: Seq<char>,
    version: Option<Seq<char>>,
) -> bool {
    &&& 0 <= i < rows.len()
    &&& selects(rows[i], user_id, file_path, version)
    &&& forall|j: int| 0 <= j < i ==> !selects(#[trigger] rows[j], user_id, file_path, version)
}

/// The row that a user, a path and an optional version token resolve to.
/// Where several rows are asked for, the first stands for them.
pub open spec fn resolve(
    rows: Seq<FileRow>,
    user_id: u128,
    file_path: Seq<char>,
    version: Option<Seq<char>>,
) -> Option<FileRow> {
    if exists|i: int| is_first_match(rows, i, user_id, file_path, version) {
        Some(rows[choose|i: int| is_first_match(rows, i, user_id, file_path, version)])
    } else {
        None
    }
}

/// A row that is asked for and has no row asked for before it is the one
/// that the request resolves to.
pub proof fn lemma_resolve_at(
    rows: Seq<FileRow>,
    i: int,
    user_id: u128,
    file_path: Seq<char>,
    version: Option<Seq<char>>,
)
    requires
        is_first_match(rows, i, user_id, file_path, version),
    ensures
        resolve(rows, user_id, file_path, version) == Some(rows[i]),
{
    let k = choose|k: int| is_first_match(rows, k, user_id, file_path, version);
    assert(k == i) by {
        if k < i {
            assert(!selects(rows[k], user_id, file_path, version));
        }
        if i < k {
            assert(!selects(rows[i], user_id, file_path, version));
        }
    }
}

/// No user has two latest rows for one path.
pub open spec fn latest_unique(rows: Seq<FileRow>) -> bool {
    forall|i: int, j: int|
        0 <= i < rows.len() && 0 <= j < rows.len() && rows[i].is_latest && rows[j].is_latest
            && rows[i].user_id == rows[j].user_id && rows[i].file_path == rows[j].file_path ==> i
            == j
}

/// Every row belongs to a user who has a row.
pub open spec fn owners_exist(w: World) -> bool {
    forall|i: int| 0 <= i < w.files.len() ==> w.users.contains((#[trigger] w.files[i]).user_id)
}

/// A row after the row with identity `demote` stopped being the latest.
pub open spec fn demote_row(row: FileRow, demote: Option<u128>) -> FileRow {
    if demote == Some(row.id) {
        FileRow { is_latest: false, ..row }
    } else {
        row
    }
}

/// The rows after the transaction of a write: the row with identity `demote`
/// is no longer the latest, and `row` is there.
pub open spec fn committed(rows: Seq<FileRow>, demote: Option<u128>, row: FileRow) -> Seq<
    FileRow,
> {
    Seq::new(rows.len(), |i: int| demote_row(rows[i], demote)).push(row)
}

/// The rows without those of identity `id`.
pub open spec fn without_id(rows: Seq<FileRow>, id: u128) -> Seq<FileRow>
    decreases rows.len(),
{
    if rows.len() == 0 {
        rows
    } else if rows.last().id == id {
        without_id(rows.drop_last(), id)
    } else {
        without_id(rows.drop_last(), id).push(rows.last())
    }
}

/// What a store does on a command and what it replies, while nothing fails.
/// `payload` is the content of the request being served and `token` the
/// version token that the blob store assigns if it is written.
pub open spec fn react(
    w: World,
    command: CommandView,
    payload: Seq<u8>,
    token: Option<Seq<char>>,
) -> (World, ReplyView) {
    match command {
        CommandView::FindUser { user_id } => (w, ReplyView::User(w.users.contains(user_id))),
        CommandView::InsertUser { row } => (
            World { users: w.users.insert(row.user_id), ..w },
            ReplyView::Done,
        ),
        CommandView::WriteBlob { file_key } => (
            World { blobs: w.blobs.insert((file_key, token_or_empty(token)), payload), ..w },
            ReplyView::BlobWritten(token),
        ),
        CommandView::FindLatest { user_id, file_path } => (
            w,
            ReplyView::Row(resolve(w.files, user_id, file_path, None)),
        ),
        CommandView::CommitVersion { demote, row } => (
            World { files: committed(w.files, demote, row), ..w },
            ReplyView::Done,
        ),
        CommandView::Resolve { user_id, file_path, version } => (
            w,
            ReplyView::Row(resolve(w.files, user_id, file_path, version)),
        ),
        CommandView::ReadBlob { file_key, version } => if w.blobs.contains_key(
            (file_key, version),
        ) {
            (w, ReplyView::Blob(w.blobs[(file_key, version)]))
        } else {
            (w, ReplyView::StorageFailed(StorageErrorKind::NoSuchKey))
        },
        CommandView::ProbeBlob { file_key, version } => if w.blobs.contains_key(
            (file_key, version),
        ) {
            (w, ReplyView::BlobPresent)
        } else {
            (w, ReplyView::StorageFailed(StorageErrorKind::NotFound))
        },
        CommandView::DeleteBlob { file_key, version } => (
            World { blobs: w.blobs.remove((file_key, version)), ..w },
            ReplyView::Done,
        ),
        CommandView::DeleteRow { id } => (
            World { files: without_id(w.files, id), ..w },
            ReplyView::Done,
        ),
        CommandView::Respond(_) => (w, ReplyView::Done),
    }
}

/// What a store reports when a call goes wrong.
pub enum Failure {
    Storage(StorageErrorKind),
    Database(DatabaseFailureView),
}

/// A call that goes wrong: the store reports the failure, having performed
/// the command or not.
pub struct Fault {
    pub performed: bool,
    pub failure: Failure,
}

/// The reply that carries a failure.
pub open spec fn failure_reply(failure: Failure) -> ReplyView {
    match failure {
        Failure::Storage(kind) => ReplyView::StorageFailed(kind),
        Failure::Database(failure) => ReplyView::DatabaseFailed(failure),
    }
}

/// What a store does on a command and what it replies, the call going wrong
/// as `fault` says, if it says so.
pub open spec fn react_or_fail(
    w: World,
    command: CommandView,
    payload: Seq<u8>,
    token: Option<Seq<char>>,
    fault: Option<Fault>,
) -> (World, ReplyView) {
    match fault {
        None => react(w, command, payload, token),
        Some(f) => (
            if f.performed {
                react(w, command, payload, token).0
            } else {
                w
            },
            failure_reply(f.failure),
        ),
    }
}

/// No call goes wrong.
pub open spec fn no_faults() -> spec_fn(nat) -> Option<Fault> {
    |n: nat| None::<Fault>
}

/// A write request with all that reaches it from outside: the content type
/// that would be guessed from the path, the version token that the blob
/// store assigns, and what each step draws.
pub struct PutInput {
    pub identity: Option<Seq<char>>,
    pub file_path: Seq<char>,
    pub content_type: Option<Seq<char>>,
    pub content_size: i64,
    pub payload: Seq<u8>,
    pub guessed: Seq<char>,
    pub token: Option<Seq<char>>,
    pub draws: spec_fn(nat) -> Draw,
}

/// A write from step `step` on: each command goes to its store, and the
/// reply to the next decision, until the caller is answered.
pub open spec fn put_run(
    w: World,
    stage: PutStageView,
    command: CommandView,
    x: PutInput,
    faults: spec_fn(nat) -> Option<Fault>,
    step: nat,
    fuel: nat,
) -> (World, Result<ResponseView, ErrorView>)
    decreases fuel,
{
    match command {
        CommandView::Respond(r) => (w, r),
        _ => if fuel == 0 {
            (w, Err(ErrorView::InternalError("Unfinished"@)))
        } else {
            let (w2, reply) = react_or_fail(w, command, x.payload, x.token, faults(step));
            let (stage2, command2) = put_step(stage, reply, (x.draws)(step));
            put_run(w2, stage2, command2, x, faults, step + 1, (fuel - 1) as nat)
        },
    }
}

/// The stores after a write in which the calls numbered by `faults` go
/// wrong, and the answer to the caller.
pub open spec fn put_outcome_with(w: World, x: PutInput, faults: spec_fn(nat) -> Option<Fault>) -> (
    World,
    Result<ResponseView, ErrorView>,
) {
    let (stage, command) = put_begin(
        x.identity,
        x.file_path,
        x.content_type,
        x.guessed,
        x.content_size,
    );
    put_run(w, stage, command, x, faults, 0, 6)
}

/// The stores after a write in which nothing fails, and the answer to the
/// caller.
pub open spec fn put_outcome(w: World, x: PutInput) -> (World, Result<ResponseView, ErrorView>) {
    put_outcome_with(w, x, no_faults())
}

/// The three operations on a stored version.
pub enum Operation {
    Get,
    Head,
    Delete,
}

/// The next decision of an operation on a stored version.
pub open spec fn object_step(op: Operation, stage: ObjectStageView, reply: ReplyView) -> (
    ObjectStageView,
    CommandView,
) {
    match op {
        Operation::Get => get_step(stage, reply),
        Operation::Head => head_step(stage, reply),
        Operation::Delete => delete_step(stage, reply),
    }
}

/// An operation on a stored version, run until the caller is answered.
pub open spec fn object_run(
    w: World,
    op: Operation,
    stage: ObjectStageView,
    command: CommandView,
    faults: spec_fn(nat) -> Option<Fault>,
    step: nat,
    fuel: nat,
) -> (World, Result<ResponseView, ErrorView>)
    decreases fuel,
{
    match command {
        CommandView::Respond(r) => (w, r),
        _ => if fuel == 0 {
            (w, Err(ErrorView::InternalError("Unfinished"@)))
        } else {
            let (w2, reply) = react_or_fail(w, command, Seq::<u8>::empty(), None, faults(step));
            let (stage2, command2) = object_step(op, stage, reply);
            object_run(w2, op, stage2, command2, faults, step + 1, (fuel - 1) as nat)
        },
    }
}

/// The stores after an operation on a stored version in which the calls
/// numbered by `faults` go wrong, and the answer to the caller.
pub open spec fn object_outcome_with(
    w: World,
    op: Operation,
    identity: Option<Seq<char>>,
    file_path: Seq<char>,
    version: Option<Seq<char>>,
    faults: spec_fn(nat) -> Option<Fault>,
) -> (World, Result<ResponseView, ErrorView>) {
    let (stage, command) = begin_resolve(identity, file_path, version);
    object_run(w, op, stage, command, faults, 0, 4)
}

/// The stores after an operation on a stored version in which nothing fails,
/// and the answer to the caller.
pub open spec fn object_outcome(
    w: World,
    op: Operation,
    identity: Option<Seq<char>>,
    file_path: Seq<char>,
    version: Option<Seq<char>>,
) -> (World, Result<ResponseView, ErrorView>) {
    object_outcome_with(w, op, identity, file_path, version, no_faults())
}

/// The step at which a write draws its blob key: the first, or the second
/// where the user has to be provisioned before.
pub open spec fn key_step(w: World, user_id: u128) -> nat {
    if w.users.contains(user_id) {
        0
    } else {
        1
    }
}

/// The row that a write by `user_id` inserts.
pub open spec fn put_row(w: World, x: PutInput, user_id: u128) -> FileRow {
    let k = key_step(w, user_id);
    new_version(
        (x.draws)(k + 2).row_id,
        (x.draws)(k + 2).now,
        (x.draws)(k).file_key,
        user_id,
        file_name(x.file_path),
        x.file_path,
        content_type_for(x.content_type, x.guessed),
        x.content_size,
        token_or_empty(x.token),
    )
}

/// What a write by `user_id` does to the stores when nothing fails: the user
/// has a row, the payload is in the blob store under the new key and its
/// version token, the path's latest row is demoted and the new row inserted.
pub open spec fn put_effect(w: World, x: PutInput, user_id: u128) -> World {
    let row = put_row(w, x, user_id);
    World {
        users: if w.users.contains(user_id) {
            w.users
        } else {
            w.users.insert(user_id)
        },
        files: committed(
            w.files,
            row_id_of(resolve(w.files, user_id, x.file_path, None)),
            row,
        ),
        blobs: w.blobs.insert((row.file_key, row.version), x.payload),
    }
}

/// The answer to a successful write by `user_id`.
pub open spec fn put_answer(w: World, x: PutInput, user_id: u128) -> ResponseView {
    let row = put_row(w, x, user_id);
    ResponseView::Created {
        message: created_message(resolve(w.files, user_id, x.file_path, None) is Some),
        file_path: x.file_path,
        file_key: row.file_key,
        version: row.version,
    }
}

/// While nothing fails, a write with a well-formed identity succeeds, and
/// does to the stores what `put_effect` says.
pub proof fn lemma_put_outcome(w: World, x: PutInput)
    requires
        identity_of(x.identity) is Ok,
    ensures
        put_outcome(w, x) == (
            put_effect(w, x, identity_of(x.identity)->Ok_0),
            Ok::<ResponseView, ErrorView>(put_answer(w, x, identity_of(x.identity)->Ok_0)),
        ),
{
    reveal_with_fuel(put_run, 7);
}

/// What a read of the content answers when nothing fails but, possibly, the
/// blob's presence.
pub open spec fn get_answer(
    w: World,
    user_id: u128,
    file_path: Seq<char>,
    version: Option<Seq<char>>,
) -> Result<ResponseView, ErrorView> {
    match resolve(w.files, user_id, file_path, version) {
        None => Err(ErrorView::NotFound("File not found"@)),
        Some(row) => if w.blobs.contains_key((row.file_key, row.version)) {
            Ok(
                ResponseView::Object {
                    metadata: transfer_of(row),
                    body: w.blobs[(row.file_key, row.version)],
                },
            )
        } else {
            Err(ErrorView::NotFound("No object found for key provided"@))
        },
    }
}

/// A read leaves the stores as they are and answers what `get_answer` says.
pub proof fn lemma_get_outcome(
    w: World,
    identity: Option<Seq<char>>,
    file_path: Seq<char>,
    version: Option<Seq<char>>,
)
    requires
        identity_of(identity) is Ok,
    ensures
        object_outcome(w, Operation::Get, identity, file_path, version) == (
            w,
            get_answer(w, identity_of(identity)->Ok_0, file_path, version),
        ),
{
    reveal_with_fuel(object_run, 5);
}

/// What a metadata read answers.
pub open spec fn head_answer(
    w: World,
    user_id: u128,
    file_path: Seq<char>,
    version: Option<Seq<char>>,
) -> Result<ResponseView, ErrorView> {
    match resolve(w.files, user_id, file_path, version) {
        None => Err(ErrorView::NotFound("File not found"@)),
        Some(row) => if w.blobs.contains_key((row.file_key, row.version)) {
            Ok(ResponseView::Metadata { metadata: transfer_of(row) })
        } else {
            Err(ErrorView::NotFound("Object not found"@))
        },
    }
}

/// A metadata read leaves the stores as they are and answers what
/// `head_answer` says.
pub proof fn lemma_head_outcome(
    w: World,
    identity: Option<Seq<char>>,
    file_path: Seq<char>,
    version: Option<Seq<char>>,
)
    requires
        identity_of(identity) is Ok,
    ensures
        object_outcome(w, Operation::Head, identity, file_path, version) == (
            w,
            head_answer(w, identity_of(identity)->Ok_0, file_path, version),
        ),
{
    reveal_with_fuel(object_run, 5);
}

/// What a delete does to the stores: the resolved row's blob and the row
/// itself are gone; without a row nothing changes.
pub open spec fn delete_effect(
    w: World,
    user_id: u128,
    file_path: Seq<char>,
    version: Option<Seq<char>>,
) -> World {
    match resolve(w.files, user_id, file_path, version) {
        None => w,
        Some(row) => World {
            users: w.users,
            files: without_id(w.files, row.id),
            blobs: w.blobs.remove((row.file_key, row.version)),
        },
    }
}

/// What a delete answers: the path and the version token of what it deleted.
pub open spec fn delete_answer(
    w: World,
    user_id: u128,
    file_path: Seq<char>,
    version: Option<Seq<char>>,
) -> Result<ResponseView, ErrorView> {
    match resolve(w.files, user_id, file_path, version) {
        None => Err(ErrorView::NotFound("File not found"@)),
        Some(row) => Ok(
            ResponseView::Deleted {
                message: "Object deleted successfully"@,
                file_path: row.file_path,
                version: row.version,
            },
        ),
    }
}

/// While nothing fails, a delete does what `delete_effect` says and answers
/// what `delete_answer` says.
pub proof fn lemma_delete_outcome(
    w: World,
    identity: Option<Seq<char>>,
    file_path: Seq<char>,
    version: Option<Seq<char>>,
)
    requires
        identity_of(identity) is Ok,
    ensures
        object_outcome(w, Operation::Delete, identity, file_path, version) == (
            delete_effect(w, identity_of(identity)->Ok_0, file_path, version),
            delete_answer(w, identity_of(identity)->Ok_0, file_path, version),
        ),
{
    reveal_with_fuel(object_run, 5);
}

} // verus!
