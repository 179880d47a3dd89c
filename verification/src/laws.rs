//! What holds of whole operations, and of operations in sequence, against
//! stores that behave as the model says, while nothing fails and when calls
//! go wrong.

use vstd::prelude::*;
use crate::entities::file::FileRow;
use crate::error::{storage_error, ErrorView, StorageErrorKind};
use crate::handlers::get::get_step;
use crate::handlers::head::head_step;
use crate::handlers::protocol::{refusal, transfer_of, CommandView, ObjectStageView, ReplyView, ResponseView};
use crate::handlers::put::{put_begin, put_step, row_id_of, token_or_empty, Draw, PutStageView};
use crate::identity::identity_of;
use crate::model::{committed, owners_exist, demote_row, failure_reply, is_first_match, key_step, latest_unique, lemma_resolve_at, lemma_delete_outcome, lemma_get_outcome, lemma_head_outcome, lemma_put_outcome, object_outcome, object_outcome_with, object_run, put_outcome, put_outcome_with, put_row, put_run, react_or_fail, resolve, selects, without_id, Fault, Operation, PutInput, World};

verus! {

/// The transaction of a write, applied where no user has two latest rows for
/// one path and the row demoted is the path's latest: no older row of the
/// path is the latest any more, the new row is what the path resolves to,
/// and still no user has two latest rows for one path.
pub proof fn lemma_commit(rows: Seq<FileRow>, row: FileRow)
    requires
        latest_unique(rows),
        row.is_latest,
    ensures
        forall|i: int|
            0 <= i < rows.len() ==> !selects(
                #[trigger] committed(
                    rows,
                    row_id_of(resolve(rows, row.user_id, row.file_path, None)),
                    row,
                )[i],
                row.user_id,
                row.file_path,
                None,
            ),
        resolve(
            committed(rows, row_id_of(resolve(rows, row.user_id, row.file_path, None)), row),
            row.user_id,
            row.file_path,
            None,
        ) == Some(row),
        latest_unique(
            committed(rows, row_id_of(resolve(rows, row.user_id, row.file_path, None)), row),
        ),
{
    let found = resolve(rows, row.user_id, row.file_path, None);
    let demote = row_id_of(found);
    let after = committed(rows, demote, row);
    assert forall|i: int| 0 <= i < rows.len() implies !selects(
        #[trigger] after[i],
        row.user_id,
        row.file_path,
        None,
    ) by {
        assert(after[i] == demote_row(rows[i], demote));
        if selects(after[i], row.user_id, row.file_path, None) {
            assert(selects(rows[i], row.user_id, row.file_path, None));
            assert(is_first_match(rows, i, row.user_id, row.file_path, None));
            lemma_resolve_at(rows, i, row.user_id, row.file_path, None);
        }
    }
    assert(after[rows.len() as int] == row);
    assert(is_first_match(after, rows.len() as int, row.user_id, row.file_path, None));
    lemma_resolve_at(after, rows.len() as int, row.user_id, row.file_path, None);
    assert forall|i: int, j: int|
        0 <= i < after.len() && 0 <= j < after.len() && after[i].is_latest && after[j].is_latest
            && after[i].user_id == after[j].user_id && after[i].file_path
            == after[j].file_path implies i == j by {
        if i < rows.len() {
            assert(after[i] == demote_row(rows[i], demote));
        }
        if j < rows.len() {
            assert(after[j] == demote_row(rows[j], demote));
        }
    }
}

/// Deleting the rows of one identity leaves only rows that were there and
/// have another identity, and brings no second latest row to any path.
pub proof fn lemma_without_id(rows: Seq<FileRow>, id: u128)
    ensures
        forall|i: int|
            0 <= i < without_id(rows, id).len() ==> (#[trigger] without_id(rows, id)[i]).id != id
                && exists|k: int| 0 <= k < rows.len() && rows[k] == without_id(rows, id)[i],
        latest_unique(rows) ==> latest_unique(without_id(rows, id)),
    decreases rows.len(),
{
    if rows.len() > 0 {
        let front = rows.drop_last();
        let rest = without_id(front, id);
        let out = without_id(rows, id);
        lemma_without_id(front, id);
        assert forall|i: int| 0 <= i < out.len() implies (#[trigger] out[i]).id != id && exists|
            k: int,
        |
            0 <= k < rows.len() && rows[k] == out[i] by {
            if i < rest.len() {
                let k = choose|k: int| 0 <= k < front.len() && front[k] == rest[i];
                assert(rows[k] == out[i]);
            } else {
                assert(rows[rows.len() - 1] == out[i]);
            }
        }
        if latest_unique(rows) {
            assert(latest_unique(front)) by {
                assert forall|i: int, j: int|
                    0 <= i < front.len() && 0 <= j < front.len() && front[i].is_latest
                        && front[j].is_latest && front[i].user_id == front[j].user_id
                        && front[i].file_path == front[j].file_path implies i == j by {
                    assert(front[i] == rows[i] && front[j] == rows[j]);
                }
            }
            assert forall|i: int, j: int|
                0 <= i < out.len() && 0 <= j < out.len() && out[i].is_latest && out[j].is_latest
                    && out[i].user_id == out[j].user_id && out[i].file_path
                    == out[j].file_path implies i == j by {
                if i < rest.len() && j >= rest.len() {
                    let k = choose|k: int| 0 <= k < front.len() && front[k] == rest[i];
                    assert(rows[k] == out[i] && rows[rows.len() - 1] == out[j]);
                }
                if j < rest.len() && i >= rest.len() {
                    let k = choose|k: int| 0 <= k < front.len() && front[k] == rest[j];
                    assert(rows[k] == out[j] && rows[rows.len() - 1] == out[i]);
                }
                if i < rest.len() && j < rest.len() {
                    assert(out[i] == rest[i] && out[j] == rest[j]);
                }
            }
        }
    }
}

/// A write that is refused for its identity changes nothing and answers with
/// a bad-request error.
pub proof fn lemma_put_without_identity(w: World, x: PutInput)
    requires
        identity_of(x.identity) is Err,
    ensures
        put_outcome(w, x) == (
            w,
            Err::<ResponseView, ErrorView>(
                ErrorView::BadRequest("Missing or invalid x-user-id header"@),
            ),
        ),
{
    reveal_with_fuel(put_run, 2);
}

/// A write followed by a read of the same path without a version token: the
/// write succeeds, and the read returns the bytes that were written, with
/// the content length that the write declared.
pub proof fn lemma_put_then_get(w: World, x: PutInput)
    requires
        latest_unique(w.files),
        identity_of(x.identity) is Ok,
    ensures
        put_outcome(w, x).1 is Ok,
        object_outcome(put_outcome(w, x).0, Operation::Get, x.identity, x.file_path, None).1 == Ok::<
            ResponseView,
            ErrorView,
        >(
            ResponseView::Object {
                metadata: transfer_of(put_row(w, x, identity_of(x.identity)->Ok_0)),
                body: x.payload,
            },
        ),
        transfer_of(put_row(w, x, identity_of(x.identity)->Ok_0)).content_length
            == x.content_size,
        object_outcome(put_outcome(w, x).0, Operation::Get, x.identity, x.file_path, None).0
            == put_outcome(w, x).0,
{
    let user_id = identity_of(x.identity)->Ok_0;
    lemma_put_outcome(w, x);
    lemma_commit(w.files, put_row(w, x, user_id));
    lemma_get_outcome(put_outcome(w, x).0, x.identity, x.file_path, None);
}

/// Two writes to one path by one user, then reads: without a version token
/// the read returns the bytes of the second write; with the version token
/// that the first write returned it returns the bytes of the first.
///
/// The tokens of the two writes differ, and no older version of the path
/// carries the first one: a token is what tells the versions of a path
/// apart.
pub proof fn lemma_versions_stay_readable(w: World, first: PutInput, second: PutInput)
    requires
        latest_unique(w.files),
        identity_of(first.identity) is Ok,
        second.identity == first.identity,
        second.file_path == first.file_path,
        token_or_empty(first.token) != token_or_empty(second.token),
        forall|i: int|
            0 <= i < w.files.len() ==> !selects(
                #[trigger] w.files[i],
                identity_of(first.identity)->Ok_0,
                first.file_path,
                Some(token_or_empty(first.token)),
            ),
    ensures
        put_outcome(w, first).1 matches Ok(ResponseView::Created { version, .. }) && version
            == token_or_empty(first.token),
        put_outcome(put_outcome(w, first).0, second).1 is Ok,
        object_outcome(
            put_outcome(put_outcome(w, first).0, second).0,
            Operation::Get,
            first.identity,
            first.file_path,
            None,
        ).1 matches Ok(ResponseView::Object { body, .. }) && body == second.payload,
        object_outcome(
            put_outcome(put_outcome(w, first).0, second).0,
            Operation::Get,
            first.identity,
            first.file_path,
            Some(token_or_empty(first.token)),
        ).1 matches Ok(ResponseView::Object { metadata, body }) && body == first.payload
            && metadata == transfer_of(put_row(w, first, identity_of(first.identity)->Ok_0)),
{
    let user_id = identity_of(first.identity)->Ok_0;
    let path = first.file_path;
    let token = token_or_empty(first.token);
    let w1 = put_outcome(w, first).0;
    let w2 = put_outcome(w1, second).0;
    let r1 = put_row(w, first, user_id);
    let r2 = put_row(w1, second, user_id);
    lemma_put_outcome(w, first);
    lemma_commit(w.files, r1);
    lemma_put_outcome(w1, second);
    lemma_put_then_get(w1, second);
    let n = w.files.len() as int;
    let d1 = row_id_of(resolve(w.files, user_id, path, None));
    let d2 = row_id_of(resolve(w1.files, user_id, path, None));
    assert(d2 == Some(r1.id));
    assert(w1.files == committed(w.files, d1, r1));
    assert(w2.files == committed(w1.files, d2, r2));
    assert forall|j: int| 0 <= j < n implies !selects(
        #[trigger] w2.files[j],
        user_id,
        path,
        Some(token),
    ) by {
        assert(w1.files[j] == demote_row(w.files[j], d1));
        assert(w2.files[j] == demote_row(w1.files[j], d2));
        assert(!selects(w.files[j], user_id, path, Some(token)));
    }
    assert(w1.files[n] == r1);
    assert(w2.files[n] == demote_row(w1.files[n], d2));
    assert(is_first_match(w2.files, n, user_id, path, Some(token)));
    lemma_resolve_at(w2.files, n, user_id, path, Some(token));
    lemma_get_outcome(w2, first.identity, path, Some(token));
    assert((r1.file_key, r1.version) != (r2.file_key, r2.version));
}

/// A write, then a delete of the same path without a version token, then a
/// read: the delete reports the version token of the write, and the read
/// finds nothing, whatever older versions the path has. No user has two
/// latest rows for one path afterwards, so that the next write to the path
/// is read back like any other.
pub proof fn lemma_delete_removes_latest(w: World, x: PutInput)
    requires
        latest_unique(w.files),
        identity_of(x.identity) is Ok,
    ensures
        object_outcome(put_outcome(w, x).0, Operation::Delete, x.identity, x.file_path, None).1
            == Ok::<ResponseView, ErrorView>(
            ResponseView::Deleted {
                message: "Object deleted successfully"@,
                file_path: x.file_path,
                version: token_or_empty(x.token),
            },
        ),
        object_outcome(
            object_outcome(
                put_outcome(w, x).0,
                Operation::Delete,
                x.identity,
                x.file_path,
                None,
            ).0,
            Operation::Get,
            x.identity,
            x.file_path,
            None,
        ).1 == Err::<ResponseView, ErrorView>(ErrorView::NotFound("File not found"@)),
        latest_unique(
            object_outcome(
                put_outcome(w, x).0,
                Operation::Delete,
                x.identity,
                x.file_path,
                None,
            ).0.files,
        ),
{
    let user_id = identity_of(x.identity)->Ok_0;
    let row = put_row(w, x, user_id);
    let w1 = put_outcome(w, x).0;
    lemma_put_outcome(w, x);
    lemma_commit(w.files, row);
    lemma_delete_outcome(w1, x.identity, x.file_path, None);
    let w2 = object_outcome(w1, Operation::Delete, x.identity, x.file_path, None).0;
    assert(w2.files == without_id(w1.files, row.id));
    lemma_without_id(w1.files, row.id);
    lemma_get_outcome(w2, x.identity, x.file_path, None);
    assert forall|i: int| 0 <= i < w2.files.len() implies !selects(
        #[trigger] w2.files[i],
        user_id,
        x.file_path,
        None,
    ) by {
        let k = choose|k: int| 0 <= k < w1.files.len() && w1.files[k] == w2.files[i];
        if k < w.files.len() {
            assert(!selects(w1.files[k], user_id, x.file_path, None));
        } else {
            assert(w1.files[k] == row);
        }
    }
    assert(resolve(w2.files, user_id, x.file_path, None) is None);
}

/// A write by a user who has no row succeeds, and the user has a row
/// afterwards.
pub proof fn lemma_put_provisions_user(w: World, x: PutInput)
    requires
        identity_of(x.identity) is Ok,
    ensures
        put_outcome(w, x).1 is Ok,
        put_outcome(w, x).0.users.contains(identity_of(x.identity)->Ok_0),
        forall|id: u128| w.users.contains(id) ==> put_outcome(w, x).0.users.contains(id),
{
    lemma_put_outcome(w, x);
}

/// Without a well-formed identity, a read, a metadata read and a delete
/// change nothing and answer with a bad-request error.
pub proof fn lemma_without_identity(
    w: World,
    op: Operation,
    identity: Option<Seq<char>>,
    file_path: Seq<char>,
    version: Option<Seq<char>>,
)
    requires
        identity_of(identity) is Err,
    ensures
        object_outcome(w, op, identity, file_path, version) == (
            w,
            Err::<ResponseView, ErrorView>(
                ErrorView::BadRequest("Missing or invalid x-user-id header"@),
            ),
        ),
{
    reveal_with_fuel(object_run, 2);
}

/// A read, a metadata read or a delete with a version token that no version
/// of the path carries finds nothing and changes nothing, whether or not the
/// path has a latest version.
pub proof fn lemma_unknown_version_is_absent(
    w: World,
    op: Operation,
    identity: Option<Seq<char>>,
    file_path: Seq<char>,
    token: Seq<char>,
)
    requires
        identity_of(identity) is Ok,
        forall|i: int|
            0 <= i < w.files.len() ==> !selects(
                #[trigger] w.files[i],
                identity_of(identity)->Ok_0,
                file_path,
                Some(token),
            ),
    ensures
        object_outcome(w, op, identity, file_path, Some(token)) == (
            w,
            Err::<ResponseView, ErrorView>(ErrorView::NotFound("File not found"@)),
        ),
{
    assert(resolve(w.files, identity_of(identity)->Ok_0, file_path, Some(token)) is None);
    lemma_get_outcome(w, identity, file_path, Some(token));
    lemma_head_outcome(w, identity, file_path, Some(token));
    lemma_delete_outcome(w, identity, file_path, Some(token));
}

/// Whether an error is a not-found error.
pub open spec fn is_not_found(r: Result<ResponseView, ErrorView>) -> bool {
    r matches Err(ErrorView::NotFound(_))
}

/// A row whose blob the blob store no longer holds reads as absent: the
/// read and the metadata read answer with a not-found error, not with a
/// storage error. So does each of them on its own whenever the blob store
/// reports absence for the row at hand.
pub proof fn lemma_dangling_reads_as_absent(
    w: World,
    identity: Option<Seq<char>>,
    file_path: Seq<char>,
    version: Option<Seq<char>>,
    row: FileRow,
)
    requires
        identity_of(identity) is Ok,
        resolve(w.files, identity_of(identity)->Ok_0, file_path, version) == Some(row),
        !w.blobs.contains_key((row.file_key, row.version)),
    ensures
        is_not_found(object_outcome(w, Operation::Get, identity, file_path, version).1),
        is_not_found(object_outcome(w, Operation::Head, identity, file_path, version).1),
        forall|kind: StorageErrorKind|
            kind == StorageErrorKind::NotFound || kind == StorageErrorKind::NoSuchKey ==> {
                &&& #[trigger] get_step(
                    ObjectStageView::Holding(row),
                    ReplyView::StorageFailed(kind),
                ).1 == CommandView::Respond(Err(storage_error(kind)))
                &&& head_step(ObjectStageView::Holding(row), ReplyView::StorageFailed(kind)).1
                    == CommandView::Respond(Err(storage_error(kind)))
                &&& storage_error(kind) is NotFound
            },
{
    lemma_get_outcome(w, identity, file_path, version);
    lemma_head_outcome(w, identity, file_path, version);
}

/// What a write asks of the stores, and when: each command belongs to the
/// stage that waits for its reply; the blob is written, and the rows are
/// touched, only once the writer has a user row; and a latest row is
/// committed together with the demotion of the path's latest row.
pub open spec fn put_coherent(w: World, stage: PutStageView, command: CommandView) -> bool {
    match command {
        CommandView::FindUser { user_id } => stage matches PutStageView::FindingUser(job)
            && job.user_id == user_id,
        CommandView::InsertUser { row } => stage matches PutStageView::CreatingUser(job)
            && job.user_id == row.user_id,
        CommandView::WriteBlob { .. } => stage matches PutStageView::WritingBlob(job, _)
            && w.users.contains(job.user_id),
        CommandView::FindLatest { user_id, file_path } => stage matches PutStageView::FindingLatest(
            job,
            _,
            _,
        ) && job.user_id == user_id && job.file_path == file_path && w.users.contains(user_id),
        CommandView::CommitVersion { demote, row } => {
            &&& stage is Committing
            &&& row.is_latest
            &&& demote == row_id_of(resolve(w.files, row.user_id, row.file_path, None))
            &&& w.users.contains(row.user_id)
        },
        CommandView::Respond(_) => true,
        _ => false,
    }
}

/// One call of a write and the decision that follows it, whether the call
/// goes wrong or not, keep what a write asks for, keep every path at one
/// latest row at most, and keep every row with a user.
pub proof fn lemma_put_step_keeps_invariants(
    w: World,
    stage: PutStageView,
    command: CommandView,
    payload: Seq<u8>,
    token: Option<Seq<char>>,
    fault: Option<Fault>,
    draw: Draw,
)
    requires
        put_coherent(w, stage, command),
        !(command is Respond),
    ensures
        put_coherent(
            react_or_fail(w, command, payload, token, fault).0,
            put_step(stage, react_or_fail(w, command, payload, token, fault).1, draw).0,
            put_step(stage, react_or_fail(w, command, payload, token, fault).1, draw).1,
        ),
        latest_unique(w.files) ==> latest_unique(
            react_or_fail(w, command, payload, token, fault).0.files,
        ),
        owners_exist(w) ==> owners_exist(react_or_fail(w, command, payload, token, fault).0),
{
    let w2 = react_or_fail(w, command, payload, token, fault).0;
    match command {
        CommandView::CommitVersion { demote, row } => {
            if latest_unique(w.files) {
                lemma_commit(w.files, row);
            }
            if owners_exist(w) {
                assert forall|i: int| 0 <= i < w2.files.len() implies w2.users.contains(
                    (#[trigger] w2.files[i]).user_id,
                ) by {
                    if w2.files != w.files && i < w.files.len() {
                        assert(w2.files[i] == demote_row(w.files[i], demote));
                    }
                }
            }
        },
        _ => {},
    }
}

/// A write run from any of its steps on keeps every path at one latest row
/// at most and every row with a user, whichever calls go wrong.
pub proof fn lemma_put_run_keeps_invariants(
    w: World,
    stage: PutStageView,
    command: CommandView,
    x: PutInput,
    faults: spec_fn(nat) -> Option<Fault>,
    step: nat,
    fuel: nat,
)
    requires
        put_coherent(w, stage, command),
    ensures
        latest_unique(w.files) ==> latest_unique(
            put_run(w, stage, command, x, faults, step, fuel).0.files,
        ),
        owners_exist(w) ==> owners_exist(put_run(w, stage, command, x, faults, step, fuel).0),
    decreases fuel,
{
    if !(command is Respond) && fuel > 0 {
        let (w2, reply) = react_or_fail(w, command, x.payload, x.token, faults(step));
        let (stage2, command2) = put_step(stage, reply, (x.draws)(step));
        lemma_put_step_keeps_invariants(
            w,
            stage,
            command,
            x.payload,
            x.token,
            faults(step),
            (x.draws)(step),
        );
        lemma_put_run_keeps_invariants(w2, stage2, command2, x, faults, step + 1, (fuel - 1) as nat);
    }
}

/// Where no user has two latest rows for one path, a write leaves it so,
/// whichever of its calls to the stores go wrong, and whether a call that
/// went wrong was performed or not.
pub proof fn lemma_put_keeps_latest_unique_despite_failures(
    w: World,
    x: PutInput,
    faults: spec_fn(nat) -> Option<Fault>,
)
    requires
        latest_unique(w.files),
    ensures
        latest_unique(put_outcome_with(w, x, faults).0.files),
{
    let (stage, command) = put_begin(
        x.identity,
        x.file_path,
        x.content_type,
        x.guessed,
        x.content_size,
    );
    lemma_put_run_keeps_invariants(w, stage, command, x, faults, 0, 6);
}

/// Where every row belongs to a user who has a row, a write leaves it so,
/// whichever of its calls go wrong: the writer is provisioned before the row
/// is inserted.
pub proof fn lemma_put_keeps_owners_despite_failures(
    w: World,
    x: PutInput,
    faults: spec_fn(nat) -> Option<Fault>,
)
    requires
        owners_exist(w),
    ensures
        owners_exist(put_outcome_with(w, x, faults).0),
{
    let (stage, command) = put_begin(
        x.identity,
        x.file_path,
        x.content_type,
        x.guessed,
        x.content_size,
    );
    lemma_put_run_keeps_invariants(w, stage, command, x, faults, 0, 6);
}

/// The stores after a sequence of writes, one after the other, `faults(i)`
/// saying which calls of write `i` go wrong.
pub open spec fn after_puts(
    w: World,
    writes: Seq<PutInput>,
    faults: spec_fn(int) -> spec_fn(nat) -> Option<Fault>,
) -> World
    decreases writes.len(),
{
    if writes.len() == 0 {
        w
    } else {
        put_outcome_with(
            after_puts(w, writes.drop_last(), faults),
            writes.last(),
            faults(writes.len() - 1),
        ).0
    }
}

/// After any sequence of writes, to one path or to many, by one user or by
/// many, failed or not, no user has two latest rows for one path and every
/// row belongs to a user who has a row, if it was so before; in particular
/// from empty stores on.
pub proof fn lemma_puts_keep_latest_unique(
    w: World,
    writes: Seq<PutInput>,
    faults: spec_fn(int) -> spec_fn(nat) -> Option<Fault>,
)
    requires
        latest_unique(w.files),
        owners_exist(w),
    ensures
        latest_unique(after_puts(w, writes, faults).files),
        owners_exist(after_puts(w, writes, faults)),
    decreases writes.len(),
{
    if writes.len() > 0 {
        lemma_puts_keep_latest_unique(w, writes.drop_last(), faults);
        lemma_put_keeps_latest_unique_despite_failures(
            after_puts(w, writes.drop_last(), faults),
            writes.last(),
            faults(writes.len() - 1),
        );
        lemma_put_keeps_owners_despite_failures(
            after_puts(w, writes.drop_last(), faults),
            writes.last(),
            faults(writes.len() - 1),
        );
    }
}

/// A read, a metadata read and a delete keep every path at one latest row
/// at most and every row with a user, whichever of their calls go wrong.
pub proof fn lemma_object_keeps_invariants_despite_failures(
    w: World,
    op: Operation,
    identity: Option<Seq<char>>,
    file_path: Seq<char>,
    version: Option<Seq<char>>,
    faults: spec_fn(nat) -> Option<Fault>,
)
    ensures
        latest_unique(w.files) ==> latest_unique(
            object_outcome_with(w, op, identity, file_path, version, faults).0.files,
        ),
        owners_exist(w) ==> owners_exist(
            object_outcome_with(w, op, identity, file_path, version, faults).0,
        ),
{
    reveal_with_fuel(object_run, 5);
    if identity_of(identity) is Ok {
        match resolve(w.files, identity_of(identity)->Ok_0, file_path, version) {
            Some(row) => {
                lemma_without_id(w.files, row.id);
            },
            None => {},
        }
    }
}

/// A write whose first failing call comes before the commit, or is a commit
/// that was not performed, answers with that failure, classified, and
/// changes no row. Where the payload had been written by then, it stays in
/// the blob store with no row that leads to it.
pub proof fn lemma_failed_put_changes_no_row(
    w: World,
    x: PutInput,
    faults: spec_fn(nat) -> Option<Fault>,
    n: nat,
)
    requires
        identity_of(x.identity) is Ok,
        n <= key_step(w, identity_of(x.identity)->Ok_0) + 3,
        forall|m: nat| m < n ==> (#[trigger] faults(m)) is None,
        faults(n) is Some,
        n == key_step(w, identity_of(x.identity)->Ok_0) + 3 ==> !faults(n)->Some_0.performed,
    ensures
        put_outcome_with(w, x, faults).1 == Err::<ResponseView, ErrorView>(
            refusal(failure_reply(faults(n)->Some_0.failure)),
        ),
        put_outcome_with(w, x, faults).0.files == w.files,
        n >= key_step(w, identity_of(x.identity)->Ok_0) + 2 ==> {
            let row = put_row(w, x, identity_of(x.identity)->Ok_0);
            &&& put_outcome_with(w, x, faults).0.blobs.contains_key((row.file_key, row.version))
            &&& put_outcome_with(w, x, faults).0.blobs[(row.file_key, row.version)] == x.payload
        },
{
    reveal_with_fuel(put_run, 7);
    let k = key_step(w, identity_of(x.identity)->Ok_0);
    assert(faults(0) is None || n == 0);
    assert(faults(1) is None || n <= 1);
    assert(faults(2) is None || n <= 2);
    assert(faults(3) is None || n <= 3);
    assert(faults(4) is None || n <= 4);
}

/// A delete that is cut short between the blob and the row: the blob is
/// gone, the row is still there, and the caller is told of the failure.
/// A read or a metadata read of the same version afterwards finds nothing,
/// as if the row were gone too.
pub proof fn lemma_delete_cut_short_reads_as_absent(
    w: World,
    identity: Option<Seq<char>>,
    file_path: Seq<char>,
    version: Option<Seq<char>>,
    faults: spec_fn(nat) -> Option<Fault>,
    row: FileRow,
)
    requires
        identity_of(identity) is Ok,
        resolve(w.files, identity_of(identity)->Ok_0, file_path, version) == Some(row),
        faults(0) is None,
        faults(1) is None,
        faults(2) is Some,
        !faults(2)->Some_0.performed,
    ensures
        object_outcome_with(w, Operation::Delete, identity, file_path, version, faults).1 == Err::<
            ResponseView,
            ErrorView,
        >(refusal(failure_reply(faults(2)->Some_0.failure))),
        object_outcome_with(w, Operation::Delete, identity, file_path, version, faults).0.files
            == w.files,
        !object_outcome_with(
            w,
            Operation::Delete,
            identity,
            file_path,
            version,
            faults,
        ).0.blobs.contains_key((row.file_key, row.version)),
        is_not_found(
            object_outcome(
                object_outcome_with(w, Operation::Delete, identity, file_path, version, faults).0,
                Operation::Get,
                identity,
                file_path,
                version,
            ).1,
        ),
        is_not_found(
            object_outcome(
                object_outcome_with(w, Operation::Delete, identity, file_path, version, faults).0,
                Operation::Head,
                identity,
                file_path,
                version,
            ).1,
        ),
{
    reveal_with_fuel(object_run, 5);
    let w2 = object_outcome_with(w, Operation::Delete, identity, file_path, version, faults).0;
    assert(w2.files == w.files);
    lemma_dangling_reads_as_absent(w2, identity, file_path, version, row);
}

/// The only thing a write ever tells the metadata store about a user is a
/// new row with a total of zero: the total of stored bytes is the store's
/// to keep, not the gateway's.
pub proof fn lemma_put_leaves_the_total_to_the_store(
    stage: PutStageView,
    reply: ReplyView,
    draw: Draw,
)
    ensures
        put_step(stage, reply, draw).1 matches CommandView::InsertUser { row } ==> row.total_space_used
            == 0,
{
}

/// The bytes that a user's rows account for: the sum of the sizes of all
/// the user's versions, latest or not. This is what the metadata store's own
/// total for the user has to follow.
pub open spec fn space_used(rows: Seq<FileRow>, user_id: u128) -> int
    decreases rows.len(),
{
    if rows.len() == 0 {
        0
    } else {
        space_used(rows.drop_last(), user_id) + if rows.last().user_id == user_id {
            rows.last().content_size as int
        } else {
            0
        }
    }
}

/// The bytes that a user's rows of one identity account for.
pub open spec fn space_of_id(rows: Seq<FileRow>, id: u128, user_id: u128) -> int
    decreases rows.len(),
{
    if rows.len() == 0 {
        0
    } else {
        space_of_id(rows.drop_last(), id, user_id) + if rows.last().user_id == user_id
            && rows.last().id == id {
            rows.last().content_size as int
        } else {
            0
        }
    }
}

/// The transaction of a write adds the size of the new row to what its
/// user's rows account for, and takes nothing away: a version that is no
/// longer the latest still counts.
pub proof fn lemma_commit_adds_its_size(
    rows: Seq<FileRow>,
    demote: Option<u128>,
    row: FileRow,
    user_id: u128,
)
    ensures
        space_used(committed(rows, demote, row), user_id) == space_used(rows, user_id) + if row.user_id
            == user_id {
            row.content_size as int
        } else {
            0
        },
{
    let demoted = Seq::new(rows.len(), |i: int| demote_row(rows[i], demote));
    assert(committed(rows, demote, row).drop_last() =~= demoted);
    lemma_demotion_keeps_sizes(rows, demote, user_id);
}

/// Demoting rows changes nothing of what a user's rows account for.
proof fn lemma_demotion_keeps_sizes(rows: Seq<FileRow>, demote: Option<u128>, user_id: u128)
    ensures
        space_used(Seq::new(rows.len(), |i: int| demote_row(rows[i], demote)), user_id)
            == space_used(rows, user_id),
    decreases rows.len(),
{
    if rows.len() > 0 {
        let front = rows.drop_last();
        let demoted = Seq::new(rows.len(), |i: int| demote_row(rows[i], demote));
        assert(demoted.drop_last() =~= Seq::new(front.len(), |i: int| demote_row(front[i], demote)));
        lemma_demotion_keeps_sizes(front, demote, user_id);
    }
}

/// Deleting the rows of one identity takes their sizes, and nothing else,
/// from what a user's rows account for.
pub proof fn lemma_delete_takes_its_size(rows: Seq<FileRow>, id: u128, user_id: u128)
    ensures
        space_used(without_id(rows, id), user_id) == space_used(rows, user_id) - space_of_id(
            rows,
            id,
            user_id,
        ),
    decreases rows.len(),
{
    if rows.len() > 0 {
        lemma_delete_takes_its_size(rows.drop_last(), id, user_id);
        if rows.last().id != id {
            assert(without_id(rows, id).drop_last() =~= without_id(rows.drop_last(), id));
        }
    }
}

/// A write that succeeds adds the size it declared to what the writer's rows
/// account for, whether the path had a version before or not, and leaves
/// what every other user's rows account for as it was.
pub proof fn lemma_put_adds_its_size(w: World, x: PutInput, other: u128)
    requires
        identity_of(x.identity) is Ok,
        other != identity_of(x.identity)->Ok_0,
    ensures
        space_used(put_outcome(w, x).0.files, identity_of(x.identity)->Ok_0) == space_used(
            w.files,
            identity_of(x.identity)->Ok_0,
        ) + x.content_size,
        space_used(put_outcome(w, x).0.files, other) == space_used(w.files, other),
{
    let user_id = identity_of(x.identity)->Ok_0;
    let row = put_row(w, x, user_id);
    let demote = row_id_of(resolve(w.files, user_id, x.file_path, None));
    lemma_put_outcome(w, x);
    lemma_commit_adds_its_size(w.files, demote, row, user_id);
    lemma_commit_adds_its_size(w.files, demote, row, other);
}

/// A delete that succeeds takes the size of what it deleted from what the
/// rows of any user account for.
pub proof fn lemma_delete_takes_its_size_away(
    w: World,
    identity: Option<Seq<char>>,
    file_path: Seq<char>,
    version: Option<Seq<char>>,
    row: FileRow,
    user_id: u128,
)
    requires
        identity_of(identity) is Ok,
        resolve(w.files, identity_of(identity)->Ok_0, file_path, version) == Some(row),
    ensures
        space_used(
            object_outcome(w, Operation::Delete, identity, file_path, version).0.files,
            user_id,
        ) == space_used(w.files, user_id) - space_of_id(w.files, row.id, user_id),
{
    lemma_delete_outcome(w, identity, file_path, version);
    lemma_delete_takes_its_size(w.files, row.id, user_id);
}

} // verus!
