//! What the application shares between its requests.

use crate::domain::{BackendDriver, BucketStorage};
use crate::storage::fs_storage::FSStorage;
use vstd::prelude::*;

verus! {

/// The state of the application: the storage that it serves.
#[derive(Debug, Clone)]
pub struct AppState {
    pub storage: FSStorage,
}

impl AppState {
    pub fn new(storage: FSStorage) -> (state: Self)
        ensures
            state.storage == storage,
    {
        Self { storage }
    }
}

/// The state of the protocol's side of the application: the buckets.
#[derive(Debug, Clone)]
pub struct S3State<T: BackendDriver> {
    pub bucket_loader: BucketStorage<T>,
}

impl S3State<FSStorage> {
    /// The buckets kept in the storage of the application.
    pub fn from_state(app: &AppState) -> (state: Self)
        ensures
            state.bucket_loader.engine()@ == app.storage@,
    {
        Self { bucket_loader: BucketStorage::new(app.storage.clone()) }
    }
}

/// Where the storage keeps its files.
#[derive(Debug, Clone)]
pub struct StorageConfig {
    /// The directory that everything is kept below.
    pub path: String,
}

impl StorageConfig {
    /// The storage that the configuration describes.
    pub fn storage(&self) -> (storage: FSStorage)
        ensures
            storage@ == self.path@,
    {
        FSStorage::new(self.path.clone())
    }
}

/// The application: a storage, ready to be served.
#[derive(Debug)]
pub struct Application {
    state: AppState,
}

impl Application {
    /// The state that the application serves.
    pub closed spec fn served(self) -> AppState {
        self.state
    }

    pub fn new(storage: FSStorage) -> (application: Self)
        ensures
            application.served().storage == storage,
    {
        Self { state: AppState::new(storage) }
    }

    /// The state of the application, to serve it.
    pub fn into_state(self) -> (state: AppState)
        ensures
            state == self.served(),
    {
        self.state
    }
}

/// The routes of the application.
pub struct AppMapping {
    state: AppState,
}

impl AppMapping {
    /// The state that the routes lead to.
    pub closed spec fn mapped(self) -> AppState {
        self.state
    }

    pub fn new(state: AppState) -> (mapping: Self)
        ensures
            mapping.mapped() == state,
    {
        Self { state }
    }

    /// The state of the protocol's side, which every path but the root is
    /// routed to.
    pub fn s3_state(&self) -> (state: S3State<FSStorage>)
        ensures
            state.bucket_loader.engine()@ == self.mapped().storage@,
    {
        S3State::from_state(&self.state)
    }

    /// What the root answers a `GET` with.
    pub fn greeting() -> (text: &'static str)
        ensures
            text@ == "hi mom!"@,
    {
        "hi mom!"
    }
}

} // verus!
