use rose::entities::file::Model;
use rose::error::{AppError, DatabaseFailure, StorageErrorKind};
use rose::handlers::delete::{delete_object, delete_object_step};
use rose::handlers::get::{get_object, get_object_step};
use rose::handlers::head::{head_object, head_object_step};
use rose::handlers::protocol::{Command, ObjectStage, Reply, Response};
use rose::handlers::put::{put_object, put_object_step};
use rose::memory::MemoryStore;

const ALICE: &str = "550e8400-e29b-41d4-a716-446655440000";
const ALICE_ID: u128 = 0x550e8400_e29b_41d4_a716_446655440000;
const BOB: &str = "6ba7b810-9dad-11d1-80b4-00c04fd430c8";
const BOB_ID: u128 = 0x6ba7b810_9dad_11d1_80b4_00c04fd430c8;

fn text(t: Option<&str>) -> Option<String> {
    t.map(|s| s.to_string())
}

fn put(
    store: &mut MemoryStore,
    identity: Option<&str>,
    path: &str,
    content_type: Option<&str>,
    body: &[u8],
    token: Option<&str>,
) -> Result<Response, AppError> {
    let payload = body.to_vec();
    let (mut stage, mut command) =
        put_object(&text(identity), path.to_string(), text(content_type), body.len() as i64);
    loop {
        match command {
            Command::Respond(outcome) => return outcome,
            other => {
                let reply = store.execute(other, &payload, text(token));
                let next = put_object_step(stage, reply);
                stage = next.0;
                command = next.1;
            }
        }
    }
}

fn run(
    store: &mut MemoryStore,
    start: (ObjectStage, Command),
    step: fn(ObjectStage, Reply) -> (ObjectStage, Command),
) -> Result<Response, AppError> {
    let (mut stage, mut command) = start;
    loop {
        match command {
            Command::Respond(outcome) => return outcome,
            other => {
                let reply = store.execute(other, &Vec::new(), None);
                let next = step(stage, reply);
                stage = next.0;
                command = next.1;
            }
        }
    }
}

fn get(store: &mut MemoryStore, identity: Option<&str>, path: &str, version: Option<&str>) -> Result<Response, AppError> {
    let start = get_object(&text(identity), path.to_string(), text(version));
    run(store, start, get_object_step)
}

fn head(store: &mut MemoryStore, identity: Option<&str>, path: &str, version: Option<&str>) -> Result<Response, AppError> {
    let start = head_object(&text(identity), path.to_string(), text(version));
    run(store, start, head_object_step)
}

fn delete(store: &mut MemoryStore, identity: Option<&str>, path: &str, version: Option<&str>) -> Result<Response, AppError> {
    let start = delete_object(&text(identity), path.to_string(), text(version));
    run(store, start, delete_object_step)
}

/// A write in which call number `fail_at` is answered by `failure`, without
/// the store performing it.
fn put_failing(
    store: &mut MemoryStore,
    path: &str,
    body: &[u8],
    token: &str,
    fail_at: usize,
    failure: Reply,
) -> Result<Response, AppError> {
    let payload = body.to_vec();
    let (mut stage, mut command) =
        put_object(&Some(ALICE.to_string()), path.to_string(), None, body.len() as i64);
    let mut call = 0;
    loop {
        match command {
            Command::Respond(outcome) => return outcome,
            other => {
                let reply = if call == fail_at {
                    failure.clone()
                } else {
                    store.execute(other, &payload, Some(token.to_string()))
                };
                call += 1;
                let next = put_object_step(stage, reply);
                stage = next.0;
                command = next.1;
            }
        }
    }
}

fn body_of(outcome: Result<Response, AppError>) -> Vec<u8> {
    match outcome {
        Ok(Response::Object { body, .. }) => body,
        other => panic!("no content: {:?}", other),
    }
}

fn latest_rows<'a>(store: &'a MemoryStore, user_id: u128, path: &str) -> Vec<&'a Model> {
    store
        .files
        .iter()
        .filter(|r| r.user_id == user_id && r.file_path == path && r.is_latest)
        .collect()
}

fn not_found() -> AppError {
    AppError::NotFound("File not found".to_string())
}

fn bad_request() -> AppError {
    AppError::BadRequest("Missing or invalid x-user-id header".to_string())
}

#[test]
fn empty_stores_hold_nothing() {
    let mut store = MemoryStore::new();
    assert!(store.users.is_empty() && store.files.is_empty() && store.blobs.is_empty());
    assert!(!store.has_user(ALICE_ID));
    assert_eq!(get(&mut store, Some(ALICE), "a.txt", None), Err(not_found()));
    assert_eq!(head(&mut store, Some(ALICE), "a.txt", None), Err(not_found()));
    assert_eq!(delete(&mut store, Some(ALICE), "a.txt", None), Err(not_found()));
}

#[test]
fn put_then_get_returns_the_bytes() {
    let mut store = MemoryStore::new();
    let created = put(&mut store, Some(ALICE), "docs/a.txt", Some("text/plain"), b"hello", Some("v1"));
    let file_key = store.files[0].file_key;
    assert_eq!(
        created,
        Ok(Response::Created {
            message: "New object created successfully".to_string(),
            file_path: "docs/a.txt".to_string(),
            file_key,
            version: "v1".to_string(),
        })
    );
    match get(&mut store, Some(ALICE), "docs/a.txt", None) {
        Ok(Response::Object { metadata, body }) => {
            assert_eq!(body, b"hello".to_vec());
            assert_eq!(metadata.content_length, 5);
            assert_eq!(metadata.content_type, "text/plain");
            assert_eq!(metadata.content_disposition, "attachment; filename=\"a.txt\"");
            assert_eq!(metadata.version, "v1");
            assert_eq!(metadata.etag, "\"v1\"");
        }
        other => panic!("unexpected outcome {:?}", other),
    }
}

#[test]
fn put_of_an_empty_body_reads_back_empty() {
    let mut store = MemoryStore::new();
    assert!(put(&mut store, Some(ALICE), "empty", None, b"", Some("v1")).is_ok());
    match get(&mut store, Some(ALICE), "empty", None) {
        Ok(Response::Object { metadata, body }) => {
            assert!(body.is_empty());
            assert_eq!(metadata.content_length, 0);
            assert_eq!(metadata.content_type, "application/octet-stream");
        }
        other => panic!("unexpected outcome {:?}", other),
    }
}

#[test]
fn head_returns_the_metadata_alone() {
    let mut store = MemoryStore::new();
    assert!(put(&mut store, Some(ALICE), "docs/a.json", None, b"{}", Some("v1")).is_ok());
    match head(&mut store, Some(ALICE), "docs/a.json", None) {
        Ok(Response::Metadata { metadata }) => {
            assert_eq!(metadata.content_length, 2);
            assert_eq!(metadata.content_type, "application/json");
            assert_eq!(metadata.version, "v1");
        }
        other => panic!("unexpected outcome {:?}", other),
    }
}

#[test]
fn every_put_keeps_one_latest_row() {
    let mut store = MemoryStore::new();
    for (i, token) in ["v1", "v2", "v3", "v4"].iter().enumerate() {
        assert!(put(&mut store, Some(ALICE), "a.txt", None, &[i as u8], Some(token)).is_ok());
        assert_eq!(latest_rows(&store, ALICE_ID, "a.txt").len(), 1);
        assert_eq!(latest_rows(&store, ALICE_ID, "a.txt")[0].version, *token);
        assert_eq!(store.files.len(), i + 1);
    }
    assert!(put(&mut store, Some(ALICE), "b.txt", None, b"b", Some("v1")).is_ok());
    assert!(put(&mut store, Some(BOB), "a.txt", None, b"bob", Some("v1")).is_ok());
    assert_eq!(latest_rows(&store, ALICE_ID, "a.txt").len(), 1);
    assert_eq!(latest_rows(&store, ALICE_ID, "b.txt").len(), 1);
    assert_eq!(latest_rows(&store, BOB_ID, "a.txt").len(), 1);
    assert_eq!(store.files.len(), 6);
}

#[test]
fn second_put_replaces_the_latest_and_keeps_the_first() {
    let mut store = MemoryStore::new();
    let first = put(&mut store, Some(ALICE), "a.txt", None, b"one", Some("v1"));
    let first_token = match first {
        Ok(Response::Created { version, .. }) => version,
        other => panic!("unexpected outcome {:?}", other),
    };
    let second = put(&mut store, Some(ALICE), "a.txt", None, b"second", Some("v2"));
    match second {
        Ok(Response::Created { message, version, .. }) => {
            assert_eq!(message, "New object version created successfully");
            assert_eq!(version, "v2");
        }
        other => panic!("unexpected outcome {:?}", other),
    }
    assert_eq!(body_of(get(&mut store, Some(ALICE), "a.txt", None)), b"second".to_vec());
    assert_eq!(body_of(get(&mut store, Some(ALICE), "a.txt", Some(&first_token))), b"one".to_vec());
    assert_eq!(body_of(get(&mut store, Some(ALICE), "a.txt", Some("v2"))), b"second".to_vec());
    match get(&mut store, Some(ALICE), "a.txt", Some("v1")) {
        Ok(Response::Object { metadata, .. }) => assert_eq!(metadata.content_length, 3),
        other => panic!("unexpected outcome {:?}", other),
    }
    assert_ne!(store.files[0].file_key, store.files[1].file_key);
    assert_ne!(store.files[0].id, store.files[1].id);
    assert!(!store.files[0].is_latest && store.files[1].is_latest);
}

#[test]
fn delete_removes_the_latest_and_promotes_nothing() {
    let mut store = MemoryStore::new();
    assert!(put(&mut store, Some(ALICE), "a.txt", None, b"one", Some("v1")).is_ok());
    assert!(put(&mut store, Some(ALICE), "a.txt", None, b"two", Some("v2")).is_ok());
    assert_eq!(
        delete(&mut store, Some(ALICE), "a.txt", None),
        Ok(Response::Deleted {
            message: "Object deleted successfully".to_string(),
            file_path: "a.txt".to_string(),
            version: "v2".to_string(),
        })
    );
    assert_eq!(get(&mut store, Some(ALICE), "a.txt", None), Err(not_found()));
    assert_eq!(head(&mut store, Some(ALICE), "a.txt", None), Err(not_found()));
    assert_eq!(delete(&mut store, Some(ALICE), "a.txt", None), Err(not_found()));
    assert_eq!(body_of(get(&mut store, Some(ALICE), "a.txt", Some("v1"))), b"one".to_vec());
    assert_eq!(store.files.len(), 1);
    assert_eq!(store.blobs.len(), 1);
    assert!(latest_rows(&store, ALICE_ID, "a.txt").is_empty());
}

#[test]
fn put_after_delete_is_read_back() {
    let mut store = MemoryStore::new();
    assert!(put(&mut store, Some(ALICE), "a.txt", None, b"one", Some("v1")).is_ok());
    assert!(delete(&mut store, Some(ALICE), "a.txt", None).is_ok());
    assert_eq!(get(&mut store, Some(ALICE), "a.txt", None), Err(not_found()));
    assert!(store.files.is_empty() && store.blobs.is_empty());
    let again = put(&mut store, Some(ALICE), "a.txt", None, b"three", Some("v3"));
    match again {
        Ok(Response::Created { message, .. }) => assert_eq!(message, "New object created successfully"),
        other => panic!("unexpected outcome {:?}", other),
    }
    assert_eq!(body_of(get(&mut store, Some(ALICE), "a.txt", None)), b"three".to_vec());
    assert_eq!(latest_rows(&store, ALICE_ID, "a.txt").len(), 1);
}

#[test]
fn delete_of_a_pinned_version_leaves_the_latest() {
    let mut store = MemoryStore::new();
    assert!(put(&mut store, Some(ALICE), "a.txt", None, b"one", Some("v1")).is_ok());
    assert!(put(&mut store, Some(ALICE), "a.txt", None, b"two", Some("v2")).is_ok());
    match delete(&mut store, Some(ALICE), "a.txt", Some("v1")) {
        Ok(Response::Deleted { version, .. }) => assert_eq!(version, "v1"),
        other => panic!("unexpected outcome {:?}", other),
    }
    assert_eq!(get(&mut store, Some(ALICE), "a.txt", Some("v1")), Err(not_found()));
    assert_eq!(body_of(get(&mut store, Some(ALICE), "a.txt", None)), b"two".to_vec());
}

#[test]
fn put_provisions_an_unseen_user() {
    let mut store = MemoryStore::new();
    assert!(!store.has_user(ALICE_ID));
    assert!(put(&mut store, Some(ALICE), "a.txt", None, b"one", Some("v1")).is_ok());
    assert!(store.has_user(ALICE_ID));
    assert!(!store.has_user(BOB_ID));
    assert!(put(&mut store, Some(ALICE), "b.txt", None, b"two", Some("v1")).is_ok());
    assert_eq!(store.users, vec![ALICE_ID]);
    assert!(put(&mut store, Some(BOB), "b.txt", None, b"two", Some("v1")).is_ok());
    assert_eq!(store.users, vec![ALICE_ID, BOB_ID]);
}

#[test]
fn requests_without_identity_change_nothing() {
    let mut store = MemoryStore::new();
    assert!(put(&mut store, Some(ALICE), "a.txt", None, b"one", Some("v1")).is_ok());
    for identity in [None, Some(""), Some("alice"), Some("550e8400-e29b-41d4-a716")] {
        assert_eq!(put(&mut store, identity, "a.txt", None, b"x", Some("v9")), Err(bad_request()));
        assert_eq!(get(&mut store, identity, "a.txt", None), Err(bad_request()));
        assert_eq!(head(&mut store, identity, "a.txt", None), Err(bad_request()));
        assert_eq!(delete(&mut store, identity, "a.txt", None), Err(bad_request()));
    }
    assert_eq!(store.files.len(), 1);
    assert_eq!(store.blobs.len(), 1);
    assert_eq!(store.users.len(), 1);
}

#[test]
fn unknown_version_is_not_found_not_the_latest() {
    let mut store = MemoryStore::new();
    assert!(put(&mut store, Some(ALICE), "a.txt", None, b"one", Some("v1")).is_ok());
    assert_eq!(get(&mut store, Some(ALICE), "a.txt", Some("v7")), Err(not_found()));
    assert_eq!(head(&mut store, Some(ALICE), "a.txt", Some("v7")), Err(not_found()));
    assert_eq!(delete(&mut store, Some(ALICE), "a.txt", Some("v7")), Err(not_found()));
    assert_eq!(get(&mut store, Some(ALICE), "a.txt", Some("")), Err(not_found()));
    assert_eq!(store.files.len(), 1);
}

#[test]
fn users_do_not_see_each_other() {
    let mut store = MemoryStore::new();
    assert!(put(&mut store, Some(ALICE), "a.txt", None, b"alice", Some("v1")).is_ok());
    assert_eq!(get(&mut store, Some(BOB), "a.txt", None), Err(not_found()));
    assert_eq!(get(&mut store, Some(BOB), "a.txt", Some("v1")), Err(not_found()));
    assert!(put(&mut store, Some(BOB), "a.txt", None, b"bob", Some("v1")).is_ok());
    assert_eq!(body_of(get(&mut store, Some(ALICE), "a.txt", None)), b"alice".to_vec());
    assert_eq!(body_of(get(&mut store, Some(BOB), "a.txt", None)), b"bob".to_vec());
    assert!(delete(&mut store, Some(BOB), "a.txt", None).is_ok());
    assert_eq!(body_of(get(&mut store, Some(ALICE), "a.txt", None)), b"alice".to_vec());
}

#[test]
fn row_without_blob_reads_as_not_found() {
    let mut store = MemoryStore::new();
    assert!(put(&mut store, Some(ALICE), "a.txt", None, b"one", Some("v1")).is_ok());
    let file_key = store.files[0].file_key;
    store.delete_blob(file_key, &"v1".to_string());
    assert!(store.blobs.is_empty());
    assert_eq!(store.files.len(), 1);
    assert_eq!(
        get(&mut store, Some(ALICE), "a.txt", None),
        Err(AppError::NotFound("No object found for key provided".to_string()))
    );
    assert_eq!(
        head(&mut store, Some(ALICE), "a.txt", None),
        Err(AppError::NotFound("Object not found".to_string()))
    );
    assert_eq!(get(&mut store, Some(ALICE), "a.txt", None).unwrap_err().status(), 404);
    assert!(delete(&mut store, Some(ALICE), "a.txt", None).is_ok());
    assert!(store.files.is_empty());
    assert_eq!(get(&mut store, Some(ALICE), "a.txt", None), Err(not_found()));
}

#[test]
fn store_without_version_tokens_records_the_empty_token() {
    let mut store = MemoryStore::new();
    match put(&mut store, Some(ALICE), "a.txt", None, b"one", None) {
        Ok(Response::Created { version, .. }) => assert_eq!(version, ""),
        other => panic!("unexpected outcome {:?}", other),
    }
    assert_eq!(body_of(get(&mut store, Some(ALICE), "a.txt", None)), b"one".to_vec());
    assert_eq!(body_of(get(&mut store, Some(ALICE), "a.txt", Some(""))), b"one".to_vec());
}

#[test]
fn memory_store_resolves_by_token_or_latest() {
    let mut store = MemoryStore::new();
    assert!(put(&mut store, Some(ALICE), "a.txt", None, b"one", Some("v1")).is_ok());
    assert!(put(&mut store, Some(ALICE), "a.txt", None, b"two", Some("v2")).is_ok());
    let path = "a.txt".to_string();
    assert_eq!(store.resolve(ALICE_ID, &path, &None).map(|r| r.version), Some("v2".to_string()));
    assert_eq!(
        store.resolve(ALICE_ID, &path, &Some("v1".to_string())).map(|r| (r.version, r.is_latest)),
        Some(("v1".to_string(), false))
    );
    assert_eq!(store.resolve(ALICE_ID, &path, &Some("v3".to_string())), None);
    assert_eq!(store.resolve(BOB_ID, &path, &None), None);
    assert_eq!(store.resolve(ALICE_ID, &"b.txt".to_string(), &None), None);
}

#[test]
fn memory_store_blobs_are_keyed_by_key_and_token() {
    let mut store = MemoryStore::new();
    store.write_blob(1, "v1".to_string(), vec![1]);
    store.write_blob(1, "v2".to_string(), vec![2]);
    store.write_blob(2, "v1".to_string(), vec![3]);
    store.write_blob(1, "v1".to_string(), vec![4]);
    assert_eq!(store.read_blob(1, &"v1".to_string()), Some(vec![4]));
    assert_eq!(store.read_blob(1, &"v2".to_string()), Some(vec![2]));
    assert_eq!(store.read_blob(2, &"v1".to_string()), Some(vec![3]));
    assert_eq!(store.read_blob(2, &"v2".to_string()), None);
    store.delete_blob(1, &"v1".to_string());
    assert_eq!(store.read_blob(1, &"v1".to_string()), None);
    assert_eq!(store.read_blob(1, &"v2".to_string()), Some(vec![2]));
    assert_eq!(
        store.execute(Command::ReadBlob { file_key: 1, version: "v1".to_string() }, &Vec::new(), None),
        Reply::StorageFailed(StorageErrorKind::NoSuchKey)
    );
    assert_eq!(
        store.execute(Command::ProbeBlob { file_key: 1, version: "v1".to_string() }, &Vec::new(), None),
        Reply::StorageFailed(StorageErrorKind::NotFound)
    );
    assert_eq!(
        store.execute(Command::ProbeBlob { file_key: 2, version: "v1".to_string() }, &Vec::new(), None),
        Reply::BlobPresent
    );
}

#[test]
fn memory_store_transaction_demotes_by_identity() {
    let mut store = MemoryStore::new();
    let row = |id: u128, version: &str| Model {
        id,
        file_key: id + 100,
        user_id: ALICE_ID,
        file_name: "a.txt".to_string(),
        file_path: "a.txt".to_string(),
        content_type: "text/plain".to_string(),
        content_size: 1,
        version: version.to_string(),
        is_latest: true,
        added_at: 0,
    };
    store.commit_version(None, row(1, "v1"));
    store.commit_version(Some(1), row(2, "v2"));
    store.commit_version(Some(5), row(3, "v3"));
    assert_eq!(store.files.iter().map(|r| r.is_latest).collect::<Vec<bool>>(), vec![false, true, true]);
    store.delete_row(2);
    assert_eq!(store.files.iter().map(|r| r.id).collect::<Vec<u128>>(), vec![1, 3]);
    store.delete_row(9);
    assert_eq!(store.files.len(), 2);
}

#[test]
fn failed_blob_write_changes_no_row() {
    let mut store = MemoryStore::new();
    assert!(put(&mut store, Some(ALICE), "a.txt", None, b"one", Some("v1")).is_ok());
    let outcome = put_failing(
        &mut store,
        "a.txt",
        b"two",
        "v2",
        1,
        Reply::StorageFailed(StorageErrorKind::StorageTimeout),
    );
    assert_eq!(
        outcome,
        Err(AppError::TimeoutError("Storage request went on timeout".to_string()))
    );
    assert_eq!(store.files.len(), 1);
    assert_eq!(store.blobs.len(), 1);
    assert_eq!(body_of(get(&mut store, Some(ALICE), "a.txt", None)), b"one".to_vec());
}

#[test]
fn failed_commit_leaves_the_blob_without_a_row() {
    let mut store = MemoryStore::new();
    assert!(put(&mut store, Some(ALICE), "a.txt", None, b"one", Some("v1")).is_ok());
    let failure = DatabaseFailure { timed_out: false, detail: "connection reset".to_string() };
    let outcome = put_failing(&mut store, "a.txt", b"two", "v2", 3, Reply::DatabaseFailed(failure));
    assert_eq!(outcome, Err(AppError::DatabaseError("connection reset".to_string())));
    assert_eq!(outcome.unwrap_err().into_response().error, "Internal server error");
    assert_eq!(store.files.len(), 1);
    assert!(store.files[0].is_latest);
    assert_eq!(store.blobs.len(), 2);
    let orphan = store.blobs[1].file_key;
    assert!(store.files.iter().all(|r| r.file_key != orphan));
    assert_eq!(body_of(get(&mut store, Some(ALICE), "a.txt", None)), b"one".to_vec());
    assert_eq!(get(&mut store, Some(ALICE), "a.txt", Some("v2")), Err(not_found()));
}

#[test]
fn failed_user_lookup_ends_the_write_at_once() {
    let mut store = MemoryStore::new();
    let failure = DatabaseFailure { timed_out: true, detail: "pool".to_string() };
    let outcome = put_failing(&mut store, "a.txt", b"one", "v1", 0, Reply::DatabaseFailed(failure));
    assert_eq!(
        outcome,
        Err(AppError::TimeoutError("Database request went on timeout".to_string()))
    );
    assert!(store.users.is_empty() && store.files.is_empty() && store.blobs.is_empty());
}

#[test]
fn delete_cut_short_leaves_a_row_that_reads_as_absent() {
    let mut store = MemoryStore::new();
    assert!(put(&mut store, Some(ALICE), "a.txt", None, b"one", Some("v1")).is_ok());
    let (stage, command) = delete_object(&Some(ALICE.to_string()), "a.txt".to_string(), None);
    let reply = store.execute(command, &Vec::new(), None);
    let (stage, command) = delete_object_step(stage, reply);
    let reply = store.execute(command, &Vec::new(), None);
    let (stage, command) = delete_object_step(stage, reply);
    assert_eq!(command, Command::DeleteRow { id: store.files[0].id });
    let failure = DatabaseFailure { timed_out: false, detail: "gone away".to_string() };
    let (_, command) = delete_object_step(stage, Reply::DatabaseFailed(failure));
    assert_eq!(command, Command::Respond(Err(AppError::DatabaseError("gone away".to_string()))));
    assert_eq!(store.files.len(), 1);
    assert!(store.blobs.is_empty());
    assert_eq!(
        get(&mut store, Some(ALICE), "a.txt", None),
        Err(AppError::NotFound("No object found for key provided".to_string()))
    );
    assert_eq!(
        head(&mut store, Some(ALICE), "a.txt", None),
        Err(AppError::NotFound("Object not found".to_string()))
    );
}

#[test]
fn every_version_counts_towards_the_space_of_its_user() {
    let mut store = MemoryStore::new();
    let used = |store: &MemoryStore, user: u128| -> i64 {
        store.files.iter().filter(|r| r.user_id == user).map(|r| r.content_size).sum()
    };
    assert!(put(&mut store, Some(ALICE), "a.txt", None, b"one", Some("v1")).is_ok());
    assert!(put(&mut store, Some(ALICE), "a.txt", None, b"three", Some("v2")).is_ok());
    assert!(put(&mut store, Some(BOB), "a.txt", None, b"bob!", Some("v1")).is_ok());
    assert_eq!(used(&store, ALICE_ID), 8);
    assert_eq!(used(&store, BOB_ID), 4);
    assert!(delete(&mut store, Some(ALICE), "a.txt", None).is_ok());
    assert_eq!(used(&store, ALICE_ID), 3);
    assert_eq!(used(&store, BOB_ID), 4);
}
