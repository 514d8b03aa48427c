//! Where the file-backed engine keeps what.
//!
//! A bucket is a directory, a metadata file and a lock file beside it. An
//! element is three files inside the directory of its bucket: its content,
//! its metadata and its lock.

use vstd::prelude::*;
use vstd::string::*;

verus! {

/// `name` inside the directory `base`. A base that is empty or ends with a
/// slash takes the name directly; any other takes a slash first.
pub open spec fn joined(base: Seq<char>, name: Seq<char>) -> Seq<char> {
    if base.len() == 0 || base.last() == '/' {
        base + name
    } else {
        base + "/"@ + name
    }
}

/// The file system as a place for buckets, below one directory.
#[derive(Debug)]
pub struct FSStorage {
    base_path: String,
}

impl View for FSStorage {
    type V = Seq<char>;

    /// The directory that everything is kept below.
    closed spec fn view(&self) -> Seq<char> {
        self.base_path@
    }
}

impl Clone for FSStorage {
    fn clone(&self) -> (copy: Self)
        ensures
            copy@ == self@,
    {
        FSStorage { base_path: self.base_path.clone() }
    }
}

/// `name` inside the directory `base`.
fn join(base: &str, name: &str) -> (path: String)
    ensures
        path@ == joined(base@, name@),
{
    let mut path = String::from_str(base);
    let len = base.unicode_len();
    let bare = len == 0 || base.get_char(len - 1) == '/';
    if !bare {
        path.append("/");
    }
    path.append(name);
    path
}

/// `name` with `suffix` behind it.
fn suffixed(name: &str, suffix: &str) -> (file: String)
    ensures
        file@ == name@ + suffix@,
{
    let mut file = String::from_str(name);
    file.append(suffix);
    file
}

impl FSStorage {
    pub fn new(base: String) -> (storage: Self)
        ensures
            storage@ == base@,
    {
        Self { base_path: base }
    }

    /// The directory that everything is kept below.
    pub fn base_path(&self) -> (base: &str)
        ensures
            base@ == self@,
    {
        self.base_path.as_str()
    }

    /// The directory of a bucket.
    pub fn database_path(&self, db_name: &str) -> (path: String)
        ensures
            path@ == joined(self@, db_name@),
    {
        join(self.base_path.as_str(), db_name)
    }

    /// The metadata file of a bucket.
    pub fn database_path_meta(&self, db_name: &str) -> (path: String)
        ensures
            path@ == joined(self@, db_name@ + ".meta"@),
    {
        join(self.base_path.as_str(), suffixed(db_name, ".meta").as_str())
    }

    /// The lock file of a bucket.
    pub fn database_path_lock(&self, db_name: &str) -> (path: String)
        ensures
            path@ == joined(self@, db_name@ + ".lock"@),
    {
        join(self.base_path.as_str(), suffixed(db_name, ".lock").as_str())
    }

    /// The content file of an element.
    pub fn file_path(&self, db_name: &str, file_name: &str) -> (path: String)
        ensures
            path@ == joined(joined(self@, db_name@), file_name@ + ".part"@),
    {
        join(self.database_path(db_name).as_str(), suffixed(file_name, ".part").as_str())
    }

    /// The lock file of an element.
    pub fn file_path_lock(&self, db_name: &str, file_name: &str) -> (path: String)
        ensures
            path@ == joined(joined(self@, db_name@), file_name@ + ".lock"@),
    {
        join(self.database_path(db_name).as_str(), suffixed(file_name, ".lock").as_str())
    }

    /// The metadata file of an element.
    pub fn file_meta(&self, db_name: &str, file_name: &str) -> (path: String)
        ensures
            path@ == joined(joined(self@, db_name@), file_name@ + ".meta"@),
    {
        join(self.database_path(db_name).as_str(), suffixed(file_name, ".meta").as_str())
    }
}

} // verus!
