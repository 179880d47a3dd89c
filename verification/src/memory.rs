//! Both stores held in memory, behaving as the model says: for running the
//! gateway without its backends.

use vstd::prelude::*;
use crate::entities::file::{FileRow, Model};
use crate::error::StorageErrorKind;
use crate::handlers::protocol::{opt_row, Command, Reply};
use crate::text::opt_text;
use crate::model::{committed, demote_row, is_first_match, lemma_resolve_at, react, resolve, selects, without_id, World};

verus! {

/// One version of one key in the blob store.
#[derive(Debug)]
pub struct Blob {
    pub file_key: u128,
    pub version: String,
    pub content: Vec<u8>,
}

/// The two stores: the identities that have a user row, the file rows in the
/// order of their insertion, and the blobs in the order of their writing.
#[derive(Debug)]
pub struct MemoryStore {
    pub users: Vec<u128>,
    pub files: Vec<Model>,
    pub blobs: Vec<Blob>,
}

/// The rows that a list of file rows stands for.
pub open spec fn rows_of(files: Seq<Model>) -> Seq<FileRow> {
    Seq::new(files.len(), |i: int| files[i]@)
}

/// The content that a list of blobs holds under each key and version token:
/// a later blob replaces an earlier one of the same key and token.
pub open spec fn blobs_of(blobs: Seq<Blob>) -> Map<(u128, Seq<char>), Seq<u8>>
    decreases blobs.len(),
{
    if blobs.len() == 0 {
        Map::empty()
    } else {
        blobs_of(blobs.drop_last()).insert(
            (blobs.last().file_key, blobs.last().version@),
            blobs.last().content@,
        )
    }
}

impl View for MemoryStore {
    type V = World;

    open spec fn view(&self) -> World {
        World {
            users: self.users@.to_set(),
            files: rows_of(self.files@),
            blobs: blobs_of(self.blobs@),
        }
    }
}

/// One blob more is one entry more, or one entry replaced.
proof fn lemma_blobs_push(blobs: Seq<Blob>, blob: Blob)
    ensures
        blobs_of(blobs.push(blob)) == blobs_of(blobs).insert(
            (blob.file_key, blob.version@),
            blob.content@,
        ),
{
    assert(blobs.push(blob).drop_last() =~= blobs);
}

/// The first `i + 1` blobs are the first `i` and one more.
proof fn lemma_blobs_take(blobs: Seq<Blob>, i: int)
    requires
        0 <= i < blobs.len(),
    ensures
        blobs_of(blobs.take(i + 1)) == blobs_of(blobs.take(i)).insert(
            (blobs[i].file_key, blobs[i].version@),
            blobs[i].content@,
        ),
{
    assert(blobs.take(i + 1).drop_last() =~= blobs.take(i));
}

/// A copy of some bytes.
fn copy_bytes(bytes: &Vec<u8>) -> (out: Vec<u8>)
    ensures
        out@ == bytes@,
{
    let mut out: Vec<u8> = Vec::new();
    let mut i: usize = 0;
    while i < bytes.len()
        invariant
            i <= bytes.len(),
            out@ == bytes@.take(i as int),
        decreases bytes.len() - i,
    {
        out.push(bytes[i]);
        assert(bytes@.take(i + 1) =~= bytes@.take(i as int).push(bytes@[i as int]));
        i += 1;
    }
    assert(bytes@.take(bytes.len() as int) =~= bytes@);
    out
}

/// The rows with the row of identity `demote` no longer the latest.
fn demote_rows(files: &mut Vec<Model>, demote: u128)
    ensures
        rows_of(final(files)@) == Seq::new(
            rows_of(old(files)@).len(),
            |i: int| demote_row(rows_of(old(files)@)[i], Some(demote)),
        ),
{
    let ghost before = files@;
    let mut i: usize = 0;
    while i < files.len()
        invariant
            i <= files.len(),
            files@.len() == before.len(),
            forall|j: int| 0 <= j < i ==> files@[j]@ == demote_row(before[j]@, Some(demote)),
            forall|j: int| i <= j < files@.len() ==> files@[j] == before[j],
        decreases files.len() - i,
    {
        if files[i].id == demote {
            let mut row = files[i].clone();
            row.is_latest = false;
            files.set(i, row);
        }
        i += 1;
    }
    assert(rows_of(files@) =~= Seq::new(
        rows_of(before).len(),
        |i: int| demote_row(rows_of(before)[i], Some(demote)),
    ));
}

/// The rows but those of identity `id`.
fn kept_rows(files: &Vec<Model>, id: u128) -> (out: Vec<Model>)
    ensures
        rows_of(out@) == without_id(rows_of(files@), id),
{
    let mut out: Vec<Model> = Vec::new();
    let mut i: usize = 0;
    assert(rows_of(files@.take(0)) =~= Seq::<FileRow>::empty());
    assert(rows_of(out@) =~= Seq::<FileRow>::empty());
    while i < files.len()
        invariant
            i <= files.len(),
            rows_of(out@) == without_id(rows_of(files@.take(i as int)), id),
        decreases files.len() - i,
    {
        let ghost shorter = rows_of(files@.take(i as int));
        let ghost longer = rows_of(files@.take(i + 1));
        let ghost kept = rows_of(out@);
        assert(longer.drop_last() =~= shorter);
        assert(longer.last() == files@[i as int]@);
        if files[i].id != id {
            out.push(files[i].clone());
            assert(rows_of(out@) =~= kept.push(files@[i as int]@));
        }
        i += 1;
    }
    assert(files@.take(files.len() as int) =~= files@);
    out
}

impl MemoryStore {
    /// Two empty stores.
    pub fn new() -> (s: MemoryStore)
        ensures
            s@.users == Set::<u128>::empty(),
            s@.files == Seq::<FileRow>::empty(),
            s@.blobs == Map::<(u128, Seq<char>), Seq<u8>>::empty(),
    {
        let s = MemoryStore { users: Vec::new(), files: Vec::new(), blobs: Vec::new() };
        assert(s@.users =~= Set::<u128>::empty());
        assert(s@.files =~= Seq::<FileRow>::empty());
        s
    }

    /// Whether the user has a row.
    pub fn has_user(&self, user_id: u128) -> (b: bool)
        ensures
            b == self@.users.contains(user_id),
    {
        let mut i: usize = 0;
        while i < self.users.len()
            invariant
                i <= self.users.len(),
                forall|j: int| 0 <= j < i ==> self.users@[j] != user_id,
            decreases self.users.len() - i,
        {
            if self.users[i] == user_id {
                assert(self.users@[i as int] == user_id);
                return true;
            }
            i += 1;
        }
        false
    }

    /// Gives the user a row.
    pub fn insert_user(&mut self, user_id: u128)
        ensures
            final(self)@.users == old(self)@.users.insert(user_id),
            final(self)@.files == old(self)@.files,
            final(self)@.blobs == old(self)@.blobs,
    {
        let ghost before = self.users@;
        self.users.push(user_id);
        assert(self.users@ == before.push(user_id));
        proof {
            before.lemma_push_to_set_commute(user_id);
        }
    }

    /// The row that a user, a path and an optional version token resolve to:
    /// the one with the token, or without a token the latest.
    pub fn resolve(&self, user_id: u128, file_path: &String, version: &Option<String>) -> (r:
        Option<Model>)
        ensures
            opt_row(r) == resolve(self@.files, user_id, file_path@, opt_text(*version)),
    {
        let mut i: usize = 0;
        while i < self.files.len()
            invariant
                i <= self.files.len(),
                forall|j: int|
                    0 <= j < i ==> !selects(
                        #[trigger] self@.files[j],
                        user_id,
                        file_path@,
                        opt_text(*version),
                    ),
            decreases self.files.len() - i,
        {
            let row = &self.files[i];
            assert(self@.files[i as int] == self.files@[i as int]@);
            let wanted = match version {
                Some(token) => row.version == *token,
                None => row.is_latest,
            };
            if row.user_id == user_id && row.file_path == *file_path && wanted {
                proof {
                    assert(is_first_match(
                        self@.files,
                        i as int,
                        user_id,
                        file_path@,
                        opt_text(*version),
                    ));
                    lemma_resolve_at(self@.files, i as int, user_id, file_path@, opt_text(*version));
                }
                return Some(row.clone());
            }
            i += 1;
        }
        None
    }

    /// The transaction of a write: the row of identity `demote` is no
    /// longer the latest, and `row` is inserted.
    pub fn commit_version(&mut self, demote: Option<u128>, row: Model)
        ensures
            final(self)@.files == committed(old(self)@.files, demote, row@),
            final(self)@.users == old(self)@.users,
            final(self)@.blobs == old(self)@.blobs,
    {
        let ghost before = self@.files;
        match demote {
            Some(id) => {
                demote_rows(&mut self.files, id);
            },
            None => {
                assert(rows_of(self.files@) =~= Seq::new(
                    before.len(),
                    |i: int| demote_row(before[i], None),
                ));
            },
        }
        let ghost demoted = rows_of(self.files@);
        self.files.push(row);
        assert(rows_of(self.files@) =~= demoted.push(row@));
    }

    /// Deletes the rows of identity `id`.
    pub fn delete_row(&mut self, id: u128)
        ensures
            final(self)@.files == without_id(old(self)@.files, id),
            final(self)@.users == old(self)@.users,
            final(self)@.blobs == old(self)@.blobs,
    {
        self.files = kept_rows(&self.files, id);
    }

    /// Stores content under a key and a version token.
    pub fn write_blob(&mut self, file_key: u128, version: String, content: Vec<u8>)
        ensures
            final(self)@.blobs == old(self)@.blobs.insert((file_key, version@), content@),
            final(self)@.users == old(self)@.users,
            final(self)@.files == old(self)@.files,
    {
        let blob = Blob { file_key, version, content };
        proof {
            lemma_blobs_push(self.blobs@, blob);
        }
        self.blobs.push(blob);
    }

    /// The content stored under a key and a version token, if there is any.
    pub fn read_blob(&self, file_key: u128, version: &String) -> (r: Option<Vec<u8>>)
        ensures
            match r {
                Some(content) => self@.blobs.contains_key((file_key, version@))
                    && self@.blobs[(file_key, version@)] == content@,
                None => !self@.blobs.contains_key((file_key, version@)),
            },
    {
        let mut found: Option<usize> = None;
        let mut i: usize = 0;
        while i < self.blobs.len()
            invariant
                i <= self.blobs.len(),
                match found {
                    Some(k) => k < i && blobs_of(self.blobs@.take(i as int)).contains_key(
                        (file_key, version@),
                    ) && blobs_of(self.blobs@.take(i as int))[(file_key, version@)]
                        == self.blobs@[k as int].content@,
                    None => !blobs_of(self.blobs@.take(i as int)).contains_key(
                        (file_key, version@),
                    ),
                },
            decreases self.blobs.len() - i,
        {
            proof {
                lemma_blobs_take(self.blobs@, i as int);
            }
            if self.blobs[i].file_key == file_key && self.blobs[i].version == *version {
                found = Some(i);
            }
            i += 1;
        }
        assert(self.blobs@.take(self.blobs.len() as int) =~= self.blobs@);
        match found {
            Some(k) => Some(copy_bytes(&self.blobs[k].content)),
            None => None,
        }
    }

    /// Deletes what is stored under a key and a version token.
    pub fn delete_blob(&mut self, file_key: u128, version: &String)
        ensures
            final(self)@.blobs == old(self)@.blobs.remove((file_key, version@)),
            final(self)@.users == old(self)@.users,
            final(self)@.files == old(self)@.files,
    {
        let mut kept: Vec<Blob> = Vec::new();
        let mut i: usize = 0;
        assert(blobs_of(self.blobs@.take(0)).remove((file_key, version@)) =~= blobs_of(kept@));
        while i < self.blobs.len()
            invariant
                i <= self.blobs.len(),
                blobs_of(kept@) == blobs_of(self.blobs@.take(i as int)).remove(
                    (file_key, version@),
                ),
            decreases self.blobs.len() - i,
        {
            proof {
                lemma_blobs_take(self.blobs@, i as int);
            }
            let ghost shorter = blobs_of(self.blobs@.take(i as int));
            if !(self.blobs[i].file_key == file_key && self.blobs[i].version == *version) {
                let blob = Blob {
                    file_key: self.blobs[i].file_key,
                    version: self.blobs[i].version.clone(),
                    content: copy_bytes(&self.blobs[i].content),
                };
                proof {
                    lemma_blobs_push(kept@, blob);
                }
                kept.push(blob);
                assert(blobs_of(kept@) =~= blobs_of(self.blobs@.take(i + 1)).remove(
                    (file_key, version@),
                ));
            } else {
                assert(blobs_of(kept@) =~= blobs_of(self.blobs@.take(i + 1)).remove(
                    (file_key, version@),
                ));
            }
            i += 1;
        }
        assert(self.blobs@.take(self.blobs.len() as int) =~= self.blobs@);
        self.blobs = kept;
    }

    /// Performs a command the way the stores do while nothing fails, and
    /// replies for them. `payload` is the content of the request being served
    /// and `token` the version token to assign if it is written. A command
    /// that answers the caller changes nothing.
    pub fn execute(&mut self, command: Command, payload: &Vec<u8>, token: Option<String>) -> (reply:
        Reply)
        ensures
            final(self)@ == react(old(self)@, command@, payload@, opt_text(token)).0,
            reply@ == react(old(self)@, command@, payload@, opt_text(token)).1,
    {
        match command {
            Command::FindUser { user_id } => Reply::User(self.has_user(user_id)),
            Command::InsertUser { row } => {
                self.insert_user(row.user_id);
                Reply::Done
            },
            Command::WriteBlob { file_key } => {
                let version = match &token {
                    Some(t) => t.clone(),
                    None => String::new(),
                };
                self.write_blob(file_key, version, copy_bytes(payload));
                Reply::BlobWritten(token)
            },
            Command::FindLatest { user_id, file_path } => Reply::Row(
                self.resolve(user_id, &file_path, &None),
            ),
            Command::CommitVersion { demote, row } => {
                self.commit_version(demote, row);
                Reply::Done
            },
            Command::Resolve { user_id, file_path, version } => Reply::Row(
                self.resolve(user_id, &file_path, &version),
            ),
            Command::ReadBlob { file_key, version } => match self.read_blob(file_key, &version) {
                Some(content) => Reply::Blob(content),
                None => Reply::StorageFailed(StorageErrorKind::NoSuchKey),
            },
            Command::ProbeBlob { file_key, version } => match self.read_blob(file_key, &version) {
                Some(_) => Reply::BlobPresent,
                None => Reply::StorageFailed(StorageErrorKind::NotFound),
            },
            Command::DeleteBlob { file_key, version } => {
                self.delete_blob(file_key, &version);
                Reply::Done
            },
            Command::DeleteRow { id } => {
                self.delete_row(id);
                Reply::Done
            },
            Command::Respond(_) => Reply::Done,
        }
    }
}

} // verus!
