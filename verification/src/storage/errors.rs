//! What can go wrong in the storage engine, and what the domain makes of it.

use vstd::prelude::*;

verus! {

/// A failure of the file-backed engine.
#[derive(Debug, Clone, Copy, PartialEq, Eq, Structural)]
pub enum FSError {
    /// The bucket is already there.
    AlreadyExist,
    /// The bucket is not there.
    NoDatabase,
    /// A metadata file could not be read or written as JSON.
    Serde,
    /// The file system refused an operation.
    Other,
    /// Something that should not happen did.
    Weird,
}

impl FSError {
    /// The failure that a refused file operation is: `AlreadyExist` where the
    /// file system says that the target exists, `Other` for any other reason.
    pub fn from_io(already_exists: bool) -> (error: Self)
        ensures
            error == if already_exists {
                FSError::AlreadyExist
            } else {
                FSError::Other
            },
    {
        if already_exists {
            FSError::AlreadyExist
        } else {
            FSError::Other
        }
    }

    /// What the failure is called in a log.
    pub fn describe(&self) -> (text: &'static str)
        ensures
            text@ == match self {
                FSError::AlreadyExist => "Database already exist"@,
                FSError::NoDatabase => "No database"@,
                FSError::Serde => "fallback serde"@,
                FSError::Other => "IO"@,
                FSError::Weird => "weird one, to investigate"@,
            },
    {
        match self {
            FSError::AlreadyExist => "Database already exist",
            FSError::NoDatabase => "No database",
            FSError::Serde => "fallback serde",
            FSError::Other => "IO",
            FSError::Weird => "weird one, to investigate",
        }
    }
}

/// A failure as the domain sees it.
#[derive(Debug, Clone, Copy, PartialEq, Eq, Structural)]
pub enum BucketStorageError {
    /// An issue happened.
    Unknown,
    /// The bucket is already there.
    DatabaseAlreadyExist,
    /// The bucket is not there.
    NoBucket,
    /// The object is not there.
    NoKey,
}

impl BucketStorageError {
    /// What the domain makes of an engine failure.
    pub open spec fn of(value: FSError) -> BucketStorageError {
        match value {
            FSError::AlreadyExist => BucketStorageError::DatabaseAlreadyExist,
            FSError::NoDatabase => BucketStorageError::NoBucket,
            _ => BucketStorageError::Unknown,
        }
    }

    /// What the failure is called in a log.
    pub fn describe(&self) -> (text: &'static str)
        ensures
            text@ == match self {
                BucketStorageError::Unknown => "An issue happened"@,
                BucketStorageError::DatabaseAlreadyExist => "Database already exist"@,
                BucketStorageError::NoBucket => "No bucket"@,
                BucketStorageError::NoKey => "No key"@,
            },
    {
        match self {
            BucketStorageError::Unknown => "An issue happened",
            BucketStorageError::DatabaseAlreadyExist => "Database already exist",
            BucketStorageError::NoBucket => "No bucket",
            BucketStorageError::NoKey => "No key",
        }
    }
}

impl From<FSError> for BucketStorageError {
    fn from(value: FSError) -> (error: Self) {
        match value {
            FSError::AlreadyExist => Self::DatabaseAlreadyExist,
            FSError::NoDatabase => Self::NoBucket,
            _ => Self::Unknown,
        }
    }
}

impl vstd::std_specs::convert::FromSpecImpl<FSError> for BucketStorageError {
    open spec fn obeys_from_spec() -> bool {
        true
    }

    open spec fn from_spec(value: FSError) -> Self {
        BucketStorageError::of(value)
    }
}

} // verus!
