use std::collections::{HashMap, HashSet};

use wasmio::context::{Context, Operation};
use wasmio::domain::BucketStorage;
use wasmio::handlers::bucket_create::BucketCreateHandler;
use wasmio::handlers::object_delete::ObjectDeleteHandler;
use wasmio::handlers::object_get::ObjectGetHandler;
use wasmio::handlers::object_put::ObjectPutHandler;
use wasmio::mapping::S3Mapping;
use wasmio::request::{Headers, Method, Query};
use wasmio::response::Response;
use wasmio::state::{AppState, S3State};
use wasmio::storage::checksum::{checksum, checksum_of_pieces, ContentDigest};
use wasmio::storage::delete::DeleteStage;
use wasmio::storage::engine::{Action, Event, Next};
use wasmio::storage::errors::{BucketStorageError, FSError};
use wasmio::storage::fs_storage::FSStorage;
use wasmio::storage::info::{DatabaseInfo, ElementInfo, MetaEntry, Timestamp};
use wasmio::storage::insert::InsertStage;
use wasmio::storage::listing::{entry_kind, Entry};
use wasmio::types::CreateBucketConfiguration;

/// A file system in memory, for the engine to be driven on.
#[derive(Default)]
struct Disk {
    directories: HashSet<String>,
    contents: HashMap<String, Vec<u8>>,
    locks: HashSet<String>,
    databases: HashMap<String, DatabaseInfo>,
    elements: HashMap<String, ElementInfo>,
}

fn parent(path: &str) -> String {
    match path.rfind('/') {
        Some(at) => path[..at].to_string(),
        None => String::new(),
    }
}

impl Disk {
    fn new(base: &str) -> Self {
        let mut disk = Disk::default();
        disk.directories.insert(base.to_string());
        disk
    }

    fn has_parent(&self, path: &str) -> bool {
        self.directories.contains(&parent(path))
    }

    fn perform(&mut self, action: Action, incoming: &[u8]) -> Event {
        match action {
            Action::Lock { path } => {
                if !self.has_parent(&path) {
                    return Event::Failed(FSError::from_io(false));
                }
                self.locks.insert(path);
                Event::Locked
            }
            Action::ReadDatabase { path } => {
                Event::Database(self.databases.get(&path).map(|found| found.duplicate()))
            }
            Action::StoreContent { path } => {
                if !self.has_parent(&path) {
                    return Event::Failed(FSError::from_io(false));
                }
                self.contents.insert(path, incoming.to_vec());
                let mut digest = ContentDigest::new();
                for piece in incoming.chunks(5) {
                    digest.update(piece);
                }
                Event::Stored { size: incoming.len() as u64, checksum: digest.finish() }
            }
            Action::ReadElement { path } => {
                Event::Element(self.elements.get(&path).map(|found| found.duplicate()))
            }
            Action::WriteElement { path, element } => {
                self.elements.insert(path, element);
                Event::Written
            }
            Action::WriteDatabase { path, database } => {
                self.databases.insert(path, database);
                Event::Written
            }
            Action::Remove { content, meta } => Event::Removed {
                content: match self.contents.remove(&content) {
                    Some(_) => None,
                    None => Some(FSError::from_io(false)),
                },
                meta: match self.elements.remove(&meta) {
                    Some(_) => None,
                    None => Some(FSError::from_io(false)),
                },
            },
        }
    }

    fn new_database(&mut self, storage: &FSStorage, name: &str, now: Timestamp) -> Result<DatabaseInfo, FSError> {
        let plan = storage.new_database_at(name, now);
        self.databases.insert(plan.meta_path.clone(), plan.info.duplicate());
        let directory = if self.directories.insert(plan.directory.clone()) {
            None
        } else {
            Some(FSError::from_io(true))
        };
        plan.finish(None, directory)
    }

    fn database_metadata(&self, storage: &FSStorage, name: &str) -> Option<DatabaseInfo> {
        self.databases.get(&storage.database_path_meta(name)).map(|found| found.duplicate())
    }

    fn insert(
        &mut self,
        storage: &FSStorage,
        db: &str,
        key: &str,
        incoming: &[u8],
        now: Timestamp,
    ) -> Result<ElementInfo, FSError> {
        let (mut insertion, mut action) =
            storage.insert_element_in_database_at(db, key, Vec::new(), now);
        loop {
            let event = self.perform(action, incoming);
            match insertion.step(event) {
                Next::Do(next) => action = next,
                Next::Inserted(info) => {
                    assert_eq!(insertion.stage(), InsertStage::Finished);
                    return Ok(info);
                }
                Next::Failed(error) => {
                    assert_eq!(insertion.stage(), InsertStage::Finished);
                    return Err(error);
                }
                Next::Deleted => unreachable!("an insertion deletes nothing"),
            }
        }
    }

    fn delete(&mut self, storage: &FSStorage, db: &str, key: &str) -> Result<(), FSError> {
        let (mut deletion, mut action) = storage.delete_element_in_database(db, key);
        loop {
            let event = self.perform(action, b"");
            match deletion.step(event) {
                Next::Do(next) => action = next,
                Next::Deleted => {
                    assert_eq!(deletion.stage(), DeleteStage::Finished);
                    return Ok(());
                }
                Next::Failed(error) => {
                    assert_eq!(deletion.stage(), DeleteStage::Finished);
                    return Err(error);
                }
                Next::Inserted(_) => unreachable!("a deletion inserts nothing"),
            }
        }
    }

    fn get(&self, storage: &FSStorage, db: &str, key: &str) -> Result<Vec<u8>, FSError> {
        if !self.elements.contains_key(&storage.file_meta(db, key)) {
            return Err(FSError::from_io(false));
        }
        match self.contents.get(&storage.file_path(db, key)) {
            Some(content) => Ok(content.clone()),
            None => Err(FSError::from_io(false)),
        }
    }

    fn list(&self, storage: &FSStorage, db: &str) -> Vec<ElementInfo> {
        let (mut listing, directory) = storage.list_element_in_database(db);
        assert_eq!(directory, storage.database_path(db));
        let directory = format!("{directory}/");
        let mut names: Vec<&String> = self
            .contents
            .keys()
            .chain(self.elements.keys())
            .chain(self.locks.iter())
            .filter(|path| path.starts_with(&directory))
            .collect();
        names.sort();
        for path in names {
            if !listing.is_open() {
                break;
            }
            let name = &path[directory.len()..];
            if listing.entry(Some(name)) == Entry::Sidecar {
                listing.read(match self.elements.get(path) {
                    Some(found) => Ok(found.duplicate()),
                    None => Err(FSError::from_io(false)),
                });
            }
        }
        listing.finish().into_iter().filter_map(|read| read.ok()).collect()
    }
}

fn at(secs: i64) -> Timestamp {
    Timestamp { secs, nanos: 0 }
}

fn store() -> (Disk, FSStorage) {
    (Disk::new("/data"), FSStorage::new("/data".to_string()))
}

#[test]
fn simple_db_with_fs() {
    let (mut disk, fs) = store();

    let result = disk.new_database(&fs, "test_db", at(1));
    assert!(result.is_ok());

    let check_metadata_info = disk.database_metadata(&fs, "test_db");
    assert!(check_metadata_info.is_some());
}

#[test]
fn test_new_database() {
    let (mut disk, storage) = store();

    let db_name = "test_db";
    let db_info = disk.new_database(&storage, db_name, at(1)).unwrap();

    assert_eq!(db_info.name, db_name);
    assert_eq!(db_info.number_element, 0);

    let metadata_path = format!("/data/{}.meta", db_name);
    assert!(disk.databases.contains_key(&metadata_path));
}

#[test]
fn test_database_metadata() {
    let (mut disk, storage) = store();

    let db_name = "test_db";
    let db_info = disk.new_database(&storage, db_name, at(1)).unwrap();

    let retrieved_db_info = disk.database_metadata(&storage, db_name).unwrap();
    assert_eq!(db_info, retrieved_db_info);
}

#[test]
fn test_insert_and_get_element_in_database() {
    let (mut disk, storage) = store();

    let db_name = "test_db";
    disk.new_database(&storage, db_name, at(1)).unwrap();

    let element_name = "test_element";
    let element_content = b"test_content";

    let element_info =
        disk.insert(&storage, db_name, element_name, element_content, at(2)).unwrap();

    let retrieved_content = disk.get(&storage, db_name, element_name).unwrap();
    let size = retrieved_content.len() as u64;

    assert_eq!(size, element_content.len() as u64);
    assert_eq!(retrieved_content, element_content);

    assert_eq!(element_info.name, element_name);
    assert_eq!(element_info.size, size);
}

#[test]
fn test_list_element_in_database() {
    let (mut disk, storage) = store();

    let db_name = "test_db";
    disk.new_database(&storage, db_name, at(1)).unwrap();

    let element_name = "test_element";
    disk.insert(&storage, db_name, element_name, b"", at(2)).unwrap();

    let mut found_element = false;
    for name in disk.list(&storage, db_name) {
        if name.name == element_name {
            found_element = true;
            break;
        }
    }

    assert!(found_element);
}

#[test]
fn test_delete_element_in_database() {
    let (mut disk, storage) = store();

    let db_name = "test_db";
    disk.new_database(&storage, db_name, at(1)).unwrap();

    let element_name = "test_element";
    disk.insert(&storage, db_name, element_name, b"", at(2)).unwrap();

    let delete_result = disk.delete(&storage, db_name, element_name);

    assert!(delete_result.is_ok());

    let mut found_element = false;
    for name in disk.list(&storage, db_name) {
        if name.name == element_name {
            found_element = true;
            break;
        }
    }

    assert!(!found_element);
}

#[test]
fn test_list_empty_database() {
    let (mut disk, storage) = store();

    let db_name = "empty_db";
    disk.new_database(&storage, db_name, at(1)).unwrap();

    assert!(disk.list(&storage, db_name).is_empty());
}

#[test]
fn files_lie_where_the_layout_says() {
    let storage = FSStorage::new("/data".to_string());
    assert_eq!(storage.base_path(), "/data");
    assert_eq!(storage.database_path("db"), "/data/db");
    assert_eq!(storage.database_path_meta("db"), "/data/db.meta");
    assert_eq!(storage.database_path_lock("db"), "/data/db.lock");
    assert_eq!(storage.file_path("db", "key"), "/data/db/key.part");
    assert_eq!(storage.file_path_lock("db", "key"), "/data/db/key.lock");
    assert_eq!(storage.file_meta("db", "key"), "/data/db/key.meta");
    assert_eq!(storage.file_path("db", "dir/key"), "/data/db/dir/key.part");

    let slashed = FSStorage::new("public/data/".to_string());
    assert_eq!(slashed.database_path("db"), "public/data/db");
    assert_eq!(slashed.file_meta("db", "key"), "public/data/db/key.meta");

    let here = FSStorage::new(String::new());
    assert_eq!(here.database_path("db"), "db");
    assert_eq!(here.database_path_meta("db"), "db.meta");
    assert_eq!(here.file_path("db", "key"), "db/key.part");

    let copy = storage.clone();
    assert_eq!(copy.base_path(), "/data");
}

#[test]
fn the_checksum_is_the_sha256_in_base64() {
    assert_eq!(checksum(b""), "47DEQpj8HBSa+/TImW+5JCeuQeRkm5NMpJWZG3hSuFU=");
    assert_eq!(checksum(b"hello"), "LPJNul+wow4m6DsqxbninhsWHlwfp0JecwQzYpOLmCQ=");
    assert_eq!(checksum(b"test_content"), "WUobSUVFvlaBINKMQ7MxnkHXuOUagRLrvs57MnVZGpo=");
}

#[test]
fn the_checksum_does_not_depend_on_the_pieces() {
    let whole = checksum(b"hello world");
    assert_eq!(whole, "uU0nuZNNPgilLlLX2n2r+sSE7+N6U4DukIj3rOLvzek=");
    let pieces = vec![b"hel".to_vec(), Vec::new(), b"lo wor".to_vec(), b"ld".to_vec()];
    assert_eq!(checksum_of_pieces(&pieces), whole);
    assert_eq!(checksum_of_pieces(&Vec::new()), checksum(b""));

    let mut digest = ContentDigest::new();
    digest.update(b"hello ");
    digest.update(b"world");
    assert_eq!(digest.finish(), whole);

    assert_ne!(checksum(b"hello world"), checksum(b"hello worle"));
    assert_ne!(checksum(b"hello world"), checksum(b"hello worl"));
}

#[test]
fn the_stored_checksum_is_that_of_the_content() {
    let (mut disk, storage) = store();
    disk.new_database(&storage, "test_db", at(1)).unwrap();

    let first = disk.insert(&storage, "test_db", "a", b"test_content", at(2)).unwrap();
    assert_eq!(first.checksum, "WUobSUVFvlaBINKMQ7MxnkHXuOUagRLrvs57MnVZGpo=");
    assert_eq!(first.size, 12);

    let again = disk.insert(&storage, "test_db", "a", b"test_content", at(3)).unwrap();
    assert_eq!(again.checksum, first.checksum);

    let other = disk.insert(&storage, "test_db", "a", b"test_contenu", at(4)).unwrap();
    assert_ne!(other.checksum, first.checksum);
    assert_eq!(disk.get(&storage, "test_db", "a").unwrap(), b"test_contenu");
}

#[test]
fn an_overwrite_keeps_the_time_of_making() {
    let (mut disk, storage) = store();
    disk.new_database(&storage, "test_db", at(1)).unwrap();

    let first = disk.insert(&storage, "test_db", "a", b"one", at(10)).unwrap();
    assert_eq!(first.created_at, at(10));
    assert_eq!(first.last_modified, at(10));

    let second = disk.insert(&storage, "test_db", "a", b"three", at(20)).unwrap();
    assert_eq!(second.created_at, at(10));
    assert_eq!(second.last_modified, at(20));
    assert_eq!(second.size, 5);
}

#[test]
fn the_bucket_counts_its_elements() {
    let (mut disk, storage) = store();
    disk.new_database(&storage, "test_db", at(1)).unwrap();

    let keys = ["a", "b", "c", "d"];
    for (n, key) in keys.iter().enumerate() {
        disk.insert(&storage, "test_db", key, key.as_bytes(), at(2)).unwrap();
        assert_eq!(disk.database_metadata(&storage, "test_db").unwrap().number_element, n as u64 + 1);
    }
    let listed = disk.list(&storage, "test_db");
    assert_eq!(listed.len(), keys.len());
    for found in &listed {
        assert!(keys.contains(&found.name.as_str()));
    }

    disk.delete(&storage, "test_db", "b").unwrap();
    let listed = disk.list(&storage, "test_db");
    assert_eq!(listed.len(), keys.len() - 1);
    assert!(listed.iter().all(|found| found.name != "b"));
    assert_eq!(disk.database_metadata(&storage, "test_db").unwrap().number_element, 3);
}

#[test]
fn deleting_what_is_not_there_fails() {
    let (mut disk, storage) = store();
    disk.new_database(&storage, "test_db", at(1)).unwrap();
    disk.insert(&storage, "test_db", "a", b"one", at(2)).unwrap();

    assert_eq!(disk.delete(&storage, "test_db", "never"), Err(FSError::Other));
    assert_eq!(disk.database_metadata(&storage, "test_db").unwrap().number_element, 1);

    assert_eq!(disk.delete(&storage, "test_db", "a"), Ok(()));
    assert_eq!(disk.delete(&storage, "test_db", "a"), Err(FSError::Other));
    assert_eq!(disk.database_metadata(&storage, "test_db").unwrap().number_element, 0);
}

#[test]
fn nothing_is_inserted_into_a_missing_bucket() {
    let (mut disk, storage) = store();
    // no directory: the lock cannot be taken
    assert_eq!(disk.insert(&storage, "ghost", "a", b"one", at(2)), Err(FSError::Other));
    // a directory without metadata: the bucket is not there
    disk.directories.insert("/data/ghost".to_string());
    assert_eq!(disk.insert(&storage, "ghost", "a", b"one", at(2)), Err(FSError::NoDatabase));
    assert!(disk.contents.is_empty());
    assert!(disk.elements.is_empty());
}

#[test]
fn a_bucket_is_made_once() {
    let (mut disk, storage) = store();
    assert!(disk.new_database(&storage, "test_db", at(1)).is_ok());
    assert_eq!(disk.new_database(&storage, "test_db", at(2)), Err(FSError::AlreadyExist));

    let plan = storage.new_database_at("other", at(3));
    assert_eq!(plan.meta_path, "/data/other.meta");
    assert_eq!(plan.directory, "/data/other");
    assert_eq!(plan.info.created_at, at(3));
    assert_eq!(plan.finish(Some(FSError::Serde), Some(FSError::AlreadyExist)), Err(FSError::Serde));
}

#[test]
fn the_steps_of_an_insertion() {
    let storage = FSStorage::new("/data".to_string());
    let metadatas = vec![MetaEntry { key: "color".to_string(), value: "red".to_string() }];
    let (mut insertion, first) = storage.insert_element_in_database_at("db", "k", metadatas, at(9));
    assert!(matches!(first, Action::Lock { path } if path == "/data/db/k.lock"));
    assert_eq!(insertion.stage(), InsertStage::Locking);

    let next = insertion.step(Event::Locked);
    assert!(matches!(next, Next::Do(Action::ReadDatabase { path }) if path == "/data/db.meta"));
    let bucket = DatabaseInfo::new_database_at("db".to_string(), at(1));
    let next = insertion.step(Event::Database(Some(bucket.duplicate())));
    assert!(matches!(next, Next::Do(Action::StoreContent { path }) if path == "/data/db/k.part"));
    let next = insertion.step(Event::Stored { size: 3, checksum: "sum".to_string() });
    assert!(matches!(next, Next::Do(Action::ReadElement { path }) if path == "/data/db/k.meta"));
    let next = insertion.step(Event::Element(None));
    let written = match next {
        Next::Do(Action::WriteElement { path, element }) => {
            assert_eq!(path, "/data/db/k.meta");
            element
        }
        other => panic!("{other:?}"),
    };
    assert_eq!(written.name, "k");
    assert_eq!(written.size, 3);
    assert_eq!(written.checksum, "sum");
    assert_eq!(written.created_at, at(9));
    assert_eq!(written.last_modified, at(9));
    assert_eq!(written.metadatas.len(), 1);
    assert_eq!(written.metadatas[0].key, "color");
    let next = insertion.step(Event::Written);
    assert!(matches!(next, Next::Do(Action::ReadDatabase { path }) if path == "/data/db.meta"));
    let next = insertion.step(Event::Database(Some(bucket)));
    match next {
        Next::Do(Action::WriteDatabase { path, database }) => {
            assert_eq!(path, "/data/db.meta");
            assert_eq!(database.number_element, 1);
            assert_eq!(database.name, "db");
        }
        other => panic!("{other:?}"),
    }
    let next = insertion.step(Event::Written);
    assert!(matches!(next, Next::Inserted(info) if info == written));
    assert_eq!(insertion.stage(), InsertStage::Finished);
    assert!(matches!(insertion.step(Event::Locked), Next::Failed(FSError::Weird)));
}

#[test]
fn a_failure_or_a_stray_event_ends_the_operation() {
    let storage = FSStorage::new("/data".to_string());
    let (mut insertion, _) = storage.insert_element_in_database_at("db", "k", Vec::new(), at(9));
    insertion.step(Event::Locked);
    assert!(matches!(insertion.step(Event::Failed(FSError::Serde)), Next::Failed(FSError::Serde)));
    assert_eq!(insertion.stage(), InsertStage::Finished);

    let (mut insertion, _) = storage.insert_element_in_database_at("db", "k", Vec::new(), at(9));
    assert!(matches!(insertion.step(Event::Written), Next::Failed(FSError::Weird)));
    assert_eq!(insertion.stage(), InsertStage::Finished);

    let (mut deletion, first) = storage.delete_element_in_database("db", "k");
    assert!(matches!(first, Action::Lock { path } if path == "/data/db/k.lock"));
    let next = deletion.step(Event::Locked);
    assert!(matches!(
        next,
        Next::Do(Action::Remove { content, meta })
            if content == "/data/db/k.part" && meta == "/data/db/k.meta"
    ));
    let next = deletion
        .step(Event::Removed { content: Some(FSError::Other), meta: Some(FSError::Serde) });
    assert!(matches!(next, Next::Failed(FSError::Other)));
    assert_eq!(deletion.stage(), DeleteStage::Finished);

    let (mut deletion, _) = storage.delete_element_in_database("db", "k");
    deletion.step(Event::Locked);
    let next = deletion.step(Event::Removed { content: None, meta: Some(FSError::Serde) });
    assert!(matches!(next, Next::Failed(FSError::Serde)));

    let (mut deletion, _) = storage.delete_element_in_database("db", "k");
    deletion.step(Event::Locked);
    deletion.step(Event::Removed { content: None, meta: None });
    assert!(matches!(deletion.step(Event::Database(None)), Next::Deleted));
}

#[test]
fn the_count_stops_at_its_ends() {
    let empty = DatabaseInfo::new_database_at("db".to_string(), at(1));
    assert_eq!(empty.duplicate().shrunk().number_element, 0);
    assert_eq!(empty.duplicate().grown().number_element, 1);
    assert_eq!(empty.duplicate().grown().shrunk(), empty);
    let full = DatabaseInfo { name: "db".to_string(), number_element: u64::MAX, created_at: at(1) };
    assert_eq!(full.duplicate().grown().number_element, u64::MAX);
    assert_eq!(full.name(), "db");
}

#[test]
fn only_metadata_files_are_listed() {
    assert_eq!(entry_kind(Some("key.meta")), Entry::Sidecar);
    assert_eq!(entry_kind(Some(".meta")), Entry::Sidecar);
    assert_eq!(entry_kind(Some("a.b.meta")), Entry::Sidecar);
    assert_eq!(entry_kind(Some("key.part")), Entry::Other);
    assert_eq!(entry_kind(Some("key.lock")), Entry::Other);
    assert_eq!(entry_kind(Some("meta")), Entry::Other);
    assert_eq!(entry_kind(Some("key.meta ")), Entry::Other);
    assert_eq!(entry_kind(Some("key.Meta")), Entry::Other);
    assert_eq!(entry_kind(Some("")), Entry::Other);
    assert_eq!(entry_kind(None), Entry::Unreadable);
}

#[test]
fn times_are_written_as_rfc_3339() {
    assert_eq!(at(1714557600).to_rfc3339().unwrap(), "2024-05-01T10:00:00+00:00");
    assert_eq!(at(0).to_rfc3339().unwrap(), "1970-01-01T00:00:00+00:00");
    assert_eq!(at(-1).to_rfc3339().unwrap(), "1969-12-31T23:59:59+00:00");
    let fine = Timestamp { secs: 1714557600, nanos: 123_456_789 };
    assert_eq!(fine.to_rfc3339().unwrap(), "2024-05-01T10:00:00.123456789+00:00");
    let half = Timestamp { secs: 1714557600, nanos: 500_000_000 };
    assert_eq!(half.to_rfc3339().unwrap(), "2024-05-01T10:00:00.500+00:00");
    assert_eq!(at(i64::MAX).to_rfc3339(), None);
    assert_eq!(Timestamp { secs: 0, nanos: 2_000_000_000 }.to_rfc3339(), None);
}

#[test]
fn failures_are_named_and_mapped() {
    assert_eq!(FSError::from_io(true), FSError::AlreadyExist);
    assert_eq!(FSError::from_io(false), FSError::Other);
    assert_eq!(FSError::AlreadyExist.describe(), "Database already exist");
    assert_eq!(FSError::NoDatabase.describe(), "No database");
    assert_eq!(FSError::Weird.describe(), "weird one, to investigate");
    assert_eq!(BucketStorageError::from(FSError::AlreadyExist), BucketStorageError::DatabaseAlreadyExist);
    assert_eq!(BucketStorageError::from(FSError::NoDatabase), BucketStorageError::NoBucket);
    assert_eq!(BucketStorageError::from(FSError::Serde), BucketStorageError::Unknown);
    assert_eq!(BucketStorageError::from(FSError::Other), BucketStorageError::Unknown);
    assert_eq!(BucketStorageError::from(FSError::Weird), BucketStorageError::Unknown);
    assert_eq!(BucketStorageError::NoKey.describe(), "No key");
    assert_eq!(BucketStorageError::NoBucket.describe(), "No bucket");
    assert_eq!(BucketStorageError::Unknown.describe(), "An issue happened");
}

/// Answers one request on the disk in memory, as the server does on files.
fn serve(disk: &mut Disk, method: Method, path: &str, body: &[u8]) -> (Response, Vec<u8>) {
    let mapping = S3Mapping::new(S3State::from_state(&AppState::new(FSStorage::new(
        "/data".to_string(),
    ))));
    let context = Context::with_request_id(
        "01REQ".to_string(),
        method,
        path,
        Headers { lines: Vec::new() },
        Query { parameters: Vec::new() },
    );
    let context = match context {
        Ok(context) => context,
        Err(error) => return (error.into_response(), Vec::new()),
    };
    let operation = match mapping.route(&context) {
        Ok(operation) => operation,
        Err(error) => return (error.into_response(), Vec::new()),
    };
    let buckets: &BucketStorage<FSStorage> = &mapping.state().bucket_loader;
    let storage = buckets.backend().clone();
    let answered = match operation {
        Operation::CreateBucket(request) => {
            let parsed = if body.is_empty() { None } else { Some(CreateBucketConfiguration {}) };
            if let Err(error) = BucketCreateHandler::configuration(parsed) {
                let error = wasmio::errors::S3HTTPError::custom(
                    &context.resource(),
                    context.request_id(),
                    error,
                );
                return (error.into_response(), Vec::new());
            }
            let name = buckets.create_new_bucket(request);
            let made = disk.new_database(&storage, &name, at(1));
            buckets.create_new_bucket_done(made).map(|output| (BucketCreateHandler::respond(output), Vec::new()))
        }
        Operation::PutObject(request) => buckets.put_object(request).and_then(|element| {
            let inserted = disk.insert(&storage, &element.bucket, &element.key, body, at(2));
            buckets
                .put_object_done(inserted)
                .map(|output| (ObjectPutHandler::respond(output), Vec::new()))
        }),
        Operation::DeleteObject(request) => {
            let element = buckets.delete_object(request);
            let deleted = disk.delete(&storage, &element.bucket, &element.key);
            buckets
                .delete_object_done(deleted)
                .map(|output| (ObjectDeleteHandler::respond(output), Vec::new()))
        }
        Operation::GetObject(request) => {
            let element = buckets.get_object(request);
            let found = disk
                .elements
                .get(&storage.file_meta(&element.bucket, &element.key))
                .map(|found| found.duplicate());
            buckets.get_object_done(Ok(found)).map(|output| {
                let content = disk.get(&storage, &element.bucket, &element.key).unwrap();
                (ObjectGetHandler::respond(output), content)
            })
        }
        Operation::ListObjectsV2(_) => unreachable!("no listing is asked for here"),
    };
    match answered {
        Ok(answer) => answer,
        Err(error) => (mapping.fail(&context, error).into_response(), Vec::new()),
    }
}

#[test]
fn test_simple_flow() {
    let mut disk = Disk::new("/data");
    let a = r###"
    <CreateBucketConfiguration xmlns="http://s3.amazonaws.com/doc/2006-03-01/">
    </CreateBucketConfiguration>
        "###;

    let (res, _) = serve(&mut disk, Method::Put, "/new-buck", a.as_bytes());
    assert_eq!(res.status, 200);
}

#[test]
fn a_bucket_and_an_object_from_end_to_end() {
    let mut disk = Disk::new("/data");

    let (made, _) = serve(&mut disk, Method::Put, "/new-bucket", b"<CreateBucketConfiguration/>");
    assert_eq!(made.status, 200);
    assert_eq!(made.headers.len(), 1);
    assert_eq!(made.headers[0].name, "location");
    assert_eq!(made.headers[0].value, "/new-bucket");

    let (put, _) = serve(&mut disk, Method::Put, "/new-bucket/file.txt", b"hello");
    assert_eq!(put.status, 200);
    assert!(put.headers.iter().any(|line| line.name == "etag"));

    let (got, content) = serve(&mut disk, Method::Get, "/new-bucket/file.txt", b"");
    assert_eq!(got.status, 200);
    assert_eq!(content, b"hello");
    let header = |name: &str| {
        got.headers.iter().find(|line| line.name == name).map(|line| line.value.as_str())
    };
    assert_eq!(header("content-length"), Some("5"));
    assert_eq!(header("etag"), Some("LPJNul+wow4m6DsqxbninhsWHlwfp0JecwQzYpOLmCQ="));

    let (deleted, _) = serve(&mut disk, Method::Delete, "/new-bucket/file.txt", b"");
    assert_eq!(deleted.status, 200);

    let (gone, _) = serve(&mut disk, Method::Get, "/new-bucket/file.txt", b"");
    assert_eq!(gone.status, 500);
    assert!(gone.body.starts_with("<?xml version=\"1.0\" encoding=\"UTF-8\"?>\n<Error><code>InternalError</code>"));
    assert!(gone.headers.iter().any(|line| line.name == "content-type" && line.value == "application/xml"));

    let (again, _) = serve(&mut disk, Method::Delete, "/new-bucket/file.txt", b"");
    assert_eq!(again.status, 500);

    let (twice, _) = serve(&mut disk, Method::Put, "/new-bucket", b"<CreateBucketConfiguration/>");
    assert_eq!(twice.status, 500);

    let (malformed, _) = serve(&mut disk, Method::Put, "/other-bucket", b"");
    assert_eq!(malformed.status, 400);
    assert!(malformed.body.contains("<code>MalformedXML</code>"));
    assert!(disk.database_metadata(&FSStorage::new("/data".to_string()), "other-bucket").is_none());

    let (unknown, _) = serve(&mut disk, Method::Post, "/new-bucket", b"");
    assert_eq!(unknown.status, 400);
    assert!(unknown.body.contains("<code>InvalidRequest</code>"));
    assert!(unknown.body.contains("<ressource>/new-bucket/</ressource>"));

    let (invalid, _) = serve(&mut disk, Method::Get, "/ab/file.txt", b"");
    assert_eq!(invalid.status, 400);
    assert!(invalid.body.contains("<code>InvalidBucketName</code>"));
}

#[test]
fn the_clock_gives_a_time_of_the_calendar() {
    let now = Timestamp::now();
    assert!(now.secs > 1_600_000_000);
    let text = now.to_rfc3339().unwrap();
    assert!(text.ends_with("+00:00"), "{text}");
    assert_eq!(&text[4..5], "-");
    assert_eq!(&text[10..11], "T");

    let storage = FSStorage::new("/data".to_string());
    let plan = storage.new_database("abc");
    assert_eq!(plan.info.name, "abc");
    assert_eq!(plan.info.number_element, 0);
    assert!(plan.info.created_at.to_rfc3339().is_some());
    assert!(plan.info.created_at.secs >= now.secs);
    assert_eq!(plan.meta_path, "/data/abc.meta");
    assert_eq!(plan.directory, "/data/abc");
    assert_eq!(DatabaseInfo::new_database("abc".to_string()).name(), "abc");

    let (mut insertion, first) = storage.insert_element_in_database("abc", "k", Vec::new());
    assert!(matches!(first, Action::Lock { path } if path == "/data/abc/k.lock"));
    insertion.step(Event::Locked);
    insertion.step(Event::Database(Some(plan.info)));
    insertion.step(Event::Stored { size: 0, checksum: String::new() });
    match insertion.step(Event::Element(None)) {
        Next::Do(Action::WriteElement { element, .. }) => {
            assert_eq!(element.created_at, element.last_modified);
            assert!(element.created_at.secs >= now.secs);
        }
        other => panic!("{other:?}"),
    }
}

#[test]
fn a_listing_ends_with_the_first_failure() {
    let storage = FSStorage::new("/data".to_string());
    let read = |name: &str| ElementInfo {
        name: name.to_string(),
        size: 1,
        created_at: at(1),
        last_modified: at(1),
        checksum: String::new(),
        metadatas: Vec::new(),
    };

    let (mut listing, directory) = storage.list_element_in_database("db");
    assert_eq!(directory, "/data/db");
    assert!(listing.is_open());
    assert_eq!(listing.entry(Some("a.part")), Entry::Other);
    assert_eq!(listing.entry(Some("a.meta")), Entry::Sidecar);
    listing.read(Ok(read("a")));
    assert_eq!(listing.entry(Some("a.lock")), Entry::Other);
    assert_eq!(listing.entry(Some("b.meta")), Entry::Sidecar);
    listing.read(Err(FSError::Serde));
    assert!(!listing.is_open());
    assert_eq!(listing.entry(Some("c.meta")), Entry::Other);
    listing.read(Ok(read("c")));
    assert_eq!(listing.entry(None), Entry::Other);
    assert_eq!(listing.finish(), vec![Ok(read("a")), Err(FSError::Serde)]);

    let (mut listing, _) = storage.list_element_in_database("db");
    assert_eq!(listing.entry(Some("a.meta")), Entry::Sidecar);
    listing.read(Ok(read("a")));
    assert_eq!(listing.entry(None), Entry::Unreadable);
    assert!(!listing.is_open());
    assert_eq!(listing.finish(), vec![Ok(read("a")), Err(FSError::Weird)]);

    let (listing, _) = storage.list_element_in_database("db");
    assert!(listing.finish().is_empty());
}
