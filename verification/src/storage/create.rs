//! Making a bucket: its metadata file and its directory.

use crate::storage::errors::FSError;
use crate::storage::fs_storage::{joined, FSStorage};
use crate::storage::info::{DatabaseInfo, DatabaseInfoView, Timestamp};
use vstd::prelude::*;
use vstd::string::*;

verus! {

/// What making a bucket takes: its description, to be written at
/// `meta_path`, and its directory, to be made at `directory`. The two may be
/// done at once.
#[derive(Debug)]
pub struct NewDatabase {
    pub info: DatabaseInfo,
    pub meta_path: String,
    pub directory: String,
}

/// How the making of a bucket ends, given what went wrong with writing its
/// metadata and with making its directory: with the failure of the metadata
/// first, else that of the directory, else with the bucket.
pub open spec fn made(
    info: DatabaseInfoView,
    meta: Option<FSError>,
    directory: Option<FSError>,
) -> Result<DatabaseInfoView, FSError> {
    match (meta, directory) {
        (Some(error), _) => Err(error),
        (None, Some(error)) => Err(error),
        (None, None) => Ok(info),
    }
}

/// The view of how an operation on a bucket ended.
pub open spec fn database_result(result: Result<DatabaseInfo, FSError>) -> Result<
    DatabaseInfoView,
    FSError,
> {
    match result {
        Ok(info) => Ok(info@),
        Err(error) => Err(error),
    }
}

impl NewDatabase {
    /// How the making of the bucket ends.
    pub fn finish(self, meta: Option<FSError>, directory: Option<FSError>) -> (result: Result<
        DatabaseInfo,
        FSError,
    >)
        ensures
            database_result(result) == made(self.info@, meta, directory),
    {
        match (meta, directory) {
            (Some(error), _) => Err(error),
            (None, Some(error)) => Err(error),
            (None, None) => Ok(self.info),
        }
    }
}

impl FSStorage {
    /// What making the bucket `name` now, by the clock, takes.
    pub fn new_database(&self, name: &str) -> (plan: NewDatabase)
        ensures
            plan.info@ == DatabaseInfoView::fresh(name@, plan.info@.created_at),
            plan.info@.created_at.text() is Some,
            plan.meta_path@ == joined(self@, name@ + ".meta"@),
            plan.directory@ == joined(self@, name@),
    {
        self.new_database_at(name, Timestamp::now())
    }

    /// What making the bucket `name` at `now` takes.
    pub fn new_database_at(&self, name: &str, now: Timestamp) -> (plan: NewDatabase)
        ensures
            plan.info@ == DatabaseInfoView::fresh(name@, now),
            plan.meta_path@ == joined(self@, name@ + ".meta"@),
            plan.directory@ == joined(self@, name@),
    {
        NewDatabase {
            info: DatabaseInfo::new_database_at(name.to_owned(), now),
            meta_path: self.database_path_meta(name),
            directory: self.database_path(name),
        }
    }
}

} // verus!
