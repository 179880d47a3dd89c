//! Files: one row per version of a logical path.

use vstd::prelude::*;
use vstd::string::StrSliceExecFns;
use crate::clock::current_time;
use crate::identity::fresh_uuid;

verus! {

/// A file row: one version of one logical path of one user.
#[derive(Debug, PartialEq, Eq)]
pub struct Model {
    /// Identity of the row.
    pub id: u128,
    /// Locator of the content in the blob store; new for every version.
    pub file_key: u128,
    pub user_id: u128,
    /// Last segment of `file_path`.
    pub file_name: String,
    /// The logical path that the user sees.
    pub file_path: String,
    pub content_type: String,
    pub content_size: i64,
    /// The version token that the blob store assigned to the write.
    pub version: String,
    pub is_latest: bool,
    /// Microseconds since the Unix epoch.
    pub added_at: i64,
}

/// Mathematical value of a file row.
pub struct FileRow {
    pub id: u128,
    pub file_key: u128,
    pub user_id: u128,
    pub file_name: Seq<char>,
    pub file_path: Seq<char>,
    pub content_type: Seq<char>,
    pub content_size: i64,
    pub version: Seq<char>,
    pub is_latest: bool,
    pub added_at: i64,
}

impl View for Model {
    type V = FileRow;

    open spec fn view(&self) -> FileRow {
        FileRow {
            id: self.id,
            file_key: self.file_key,
            user_id: self.user_id,
            file_name: self.file_name@,
            file_path: self.file_path@,
            content_type: self.content_type@,
            content_size: self.content_size,
            version: self.version@,
            is_latest: self.is_latest,
            added_at: self.added_at,
        }
    }
}

impl Clone for Model {
    fn clone(&self) -> (r: Model)
        ensures
            r@ == self@,
    {
        Model {
            id: self.id,
            file_key: self.file_key,
            user_id: self.user_id,
            file_name: self.file_name.clone(),
            file_path: self.file_path.clone(),
            content_type: self.content_type.clone(),
            content_size: self.content_size,
            version: self.version.clone(),
            is_latest: self.is_latest,
            added_at: self.added_at,
        }
    }
}

/// A file row that is about to be written.
#[derive(Debug, PartialEq, Eq)]
pub struct ActiveModel {
    pub row: Model,
}

impl View for ActiveModel {
    type V = FileRow;

    open spec fn view(&self) -> FileRow {
        self.row@
    }
}

/// Where the last segment of `path` starts: behind its last `/`, or at 0.
pub open spec fn segment_start(path: Seq<char>) -> int
    decreases path.len(),
{
    if path.len() == 0 {
        0
    } else if path.last() == '/' {
        path.len() as int
    } else {
        segment_start(path.drop_last())
    }
}

/// The last segment of a logical path.
pub open spec fn file_name(path: Seq<char>) -> Seq<char> {
    path.subrange(segment_start(path), path.len() as int)
}

/// `segment_start` is the one position that has no `/` behind it and either
/// is 0 or follows a `/`.
pub proof fn lemma_segment_start(path: Seq<char>, k: int)
    requires
        0 <= k <= path.len(),
        k == 0 || path[k - 1] == '/',
        forall|j: int| k <= j < path.len() ==> path[j] != '/',
    ensures
        segment_start(path) == k,
    decreases path.len(),
{
    if path.len() > 0 && path.last() != '/' {
        lemma_segment_start(path.drop_last(), k);
    }
}

/// The row of a new version: the latest one of its path.
pub open spec fn new_version(
    id: u128,
    added_at: i64,
    file_key: u128,
    user_id: u128,
    file_name: Seq<char>,
    file_path: Seq<char>,
    content_type: Seq<char>,
    content_size: i64,
    version: Seq<char>,
) -> FileRow {
    FileRow {
        id,
        file_key,
        user_id,
        file_name,
        file_path,
        content_type,
        content_size,
        version,
        is_latest: true,
        added_at,
    }
}

/// The last segment of `path`, as the file's name.
pub fn file_name_of(path: &str) -> (name: String)
    ensures
        name@ == file_name(path@),
{
    let n: usize = path.unicode_len();
    let mut i: usize = n;
    while i > 0 && path.get_char(i - 1) != '/'
        invariant
            i <= n,
            n == path@.len(),
            forall|j: int| i <= j < n ==> path@[j] != '/',
        decreases i,
    {
        i -= 1;
    }
    proof {
        lemma_segment_start(path@, i as int);
    }
    path.substring_char(i, n).to_owned()
}

impl ActiveModel {
    /// The row of a new version with the given identity and write time.
    pub fn with_identity(
        id: u128,
        added_at: i64,
        file_key: u128,
        user_id: u128,
        file_name: String,
        file_path: String,
        content_type: String,
        content_size: i64,
        version: String,
    ) -> (m: ActiveModel)
        ensures
            m@ == new_version(
                id,
                added_at,
                file_key,
                user_id,
                file_name@,
                file_path@,
                content_type@,
                content_size,
                version@,
            ),
    {
        ActiveModel {
            row: Model {
                id,
                file_key,
                user_id,
                file_name,
                file_path,
                content_type,
                content_size,
                version,
                is_latest: true,
                added_at,
            },
        }
    }

    /// The row of a new version, with a fresh identity and the current time.
    pub fn new(
        file_key: u128,
        user_id: u128,
        file_name: String,
        file_path: String,
        content_type: String,
        content_size: i64,
        version: String,
    ) -> (m: ActiveModel)
        ensures
            m@ == new_version(
                m@.id,
                m@.added_at,
                file_key,
                user_id,
                file_name@,
                file_path@,
                content_type@,
                content_size,
                version@,
            ),
    {
        ActiveModel::with_identity(
            fresh_uuid(),
            current_time(),
            file_key,
            user_id,
            file_name,
            file_path,
            content_type,
            content_size,
            version,
        )
    }
}

} // verus!
