//! What the engine keeps of a bucket and of an element.

use vstd::prelude::*;
use vstd::string::*;

verus! {

/// A point in time: whole seconds since the start of 1970 in UTC, and the
/// nanoseconds past them.
#[derive(Debug, Clone, Copy, PartialEq, Eq, Structural)]
pub struct Timestamp {
    pub secs: i64,
    pub nanos: u32,
}

/// The RFC 3339 text of the point in time, where the calendar reaches it.
pub uninterp spec fn rfc3339_text(secs: i64, nanos: u32) -> Option<Seq<char>>;

/// Calls `chrono::DateTime::from_timestamp` and, on what it gives,
/// `DateTime::to_rfc3339`: the text of a point in time that chrono's calendar
/// holds, and nothing for one that it does not hold.
#[verifier::external_body]
fn rfc3339(secs: i64, nanos: u32) -> (text: Option<String>)
    ensures
        match text {
            Some(text) => rfc3339_text(secs, nanos) == Some(text@),
            None => rfc3339_text(secs, nanos) is None,
        },
{
    match chrono::DateTime::from_timestamp(secs, nanos) {
        Some(time) => Some(time.to_rfc3339()),
        None => None,
    }
}

/// Calls `chrono::Utc::now` and reads the point in time off what it gives,
/// with `DateTime::timestamp` and `DateTime::timestamp_subsec_nanos`. The
/// two lead back to the same `DateTime` through `DateTime::from_timestamp`,
/// so chrono's calendar holds the point.
#[verifier::external_body]
fn clock() -> (now: Timestamp)
    ensures
        rfc3339_text(now.secs, now.nanos) is Some,
{
    let now = chrono::Utc::now();
    Timestamp { secs: now.timestamp(), nanos: now.timestamp_subsec_nanos() }
}

impl Timestamp {
    /// The RFC 3339 text of the point in time.
    pub open spec fn text(self) -> Option<Seq<char>> {
        rfc3339_text(self.secs, self.nanos)
    }

    /// The point in time that the clock shows. Whatever it shows, the
    /// calendar holds it.
    pub fn now() -> (now: Self)
        ensures
            now.text() is Some,
    {
        clock()
    }

    /// The RFC 3339 text of the point in time, such as
    /// `2024-05-01T10:00:00+00:00`; `None` for a point in time outside the
    /// calendar.
    pub fn to_rfc3339(&self) -> (text: Option<String>)
        ensures
            match text {
                Some(text) => self.text() == Some(text@),
                None => self.text() is None,
            },
    {
        rfc3339(self.secs, self.nanos)
    }
}

/// What a `DatabaseInfo` holds.
pub struct DatabaseInfoView {
    pub name: Seq<char>,
    pub number_element: u64,
    pub created_at: Timestamp,
}

impl DatabaseInfoView {
    /// A bucket that was just made: it holds no element.
    pub open spec fn fresh(name: Seq<char>, now: Timestamp) -> DatabaseInfoView {
        DatabaseInfoView { name, number_element: 0, created_at: now }
    }

    /// The bucket with one element more. The count stops at the largest
    /// number it can hold.
    pub open spec fn grown(self) -> DatabaseInfoView {
        DatabaseInfoView {
            number_element: if self.number_element < u64::MAX {
                (self.number_element + 1) as u64
            } else {
                self.number_element
            },
            ..self
        }
    }

    /// The bucket with one element less. The count stops at zero.
    pub open spec fn shrunk(self) -> DatabaseInfoView {
        DatabaseInfoView {
            number_element: if self.number_element > 0 {
                (self.number_element - 1) as u64
            } else {
                0
            },
            ..self
        }
    }
}

/// What the engine keeps of a bucket.
#[derive(Debug, PartialEq, Eq)]
pub struct DatabaseInfo {
    pub name: String,
    pub number_element: u64,
    pub created_at: Timestamp,
}

impl View for DatabaseInfo {
    type V = DatabaseInfoView;

    open spec fn view(&self) -> DatabaseInfoView {
        DatabaseInfoView {
            name: self.name@,
            number_element: self.number_element,
            created_at: self.created_at,
        }
    }
}

impl DatabaseInfo {
    /// The description of a bucket made now, by the clock.
    pub fn new_database(name: String) -> (info: Self)
        ensures
            info@ == DatabaseInfoView::fresh(name@, info@.created_at),
            info@.created_at.text() is Some,
    {
        Self::new_database_at(name, Timestamp::now())
    }

    /// The description of a bucket made at `now`.
    pub fn new_database_at(name: String, now: Timestamp) -> (info: Self)
        ensures
            info@ == DatabaseInfoView::fresh(name@, now),
    {
        Self { name, number_element: 0, created_at: now }
    }

    pub fn name(&self) -> (name: &str)
        ensures
            name@ == self@.name,
    {
        self.name.as_str()
    }

    /// The bucket after an element was inserted.
    pub fn grown(self) -> (info: Self)
        ensures
            info@ == self@.grown(),
    {
        let number_element = if self.number_element < u64::MAX {
            self.number_element + 1
        } else {
            self.number_element
        };
        Self { name: self.name, number_element, created_at: self.created_at }
    }

    /// The bucket after an element was deleted.
    pub fn shrunk(self) -> (info: Self)
        ensures
            info@ == self@.shrunk(),
    {
        let number_element = if self.number_element > 0 {
            self.number_element - 1
        } else {
            0
        };
        Self { name: self.name, number_element, created_at: self.created_at }
    }
}

/// One pair of user metadata.
#[derive(Debug, Clone, PartialEq, Eq)]
pub struct MetaEntry {
    pub key: String,
    pub value: String,
}

impl View for MetaEntry {
    type V = (Seq<char>, Seq<char>);

    open spec fn view(&self) -> (Seq<char>, Seq<char>) {
        (self.key@, self.value@)
    }
}

/// The pairs of `entries`, in order.
pub open spec fn meta_pairs(entries: Seq<MetaEntry>) -> Seq<(Seq<char>, Seq<char>)> {
    entries.map_values(|e: MetaEntry| e@)
}

/// What an `ElementInfo` holds.
pub struct ElementInfoView {
    pub name: Seq<char>,
    pub size: u64,
    pub created_at: Timestamp,
    pub last_modified: Timestamp,
    pub checksum: Seq<char>,
    pub metadatas: Seq<(Seq<char>, Seq<char>)>,
}

impl ElementInfoView {
    /// The description of an element whose content was written at `now`.
    /// An element that was there before keeps the time it was first made at.
    pub open spec fn written(
        name: Seq<char>,
        size: u64,
        checksum: Seq<char>,
        metadatas: Seq<(Seq<char>, Seq<char>)>,
        prior: Option<ElementInfoView>,
        now: Timestamp,
    ) -> ElementInfoView {
        ElementInfoView {
            name,
            size,
            created_at: match prior {
                Some(prior) => prior.created_at,
                None => now,
            },
            last_modified: now,
            checksum,
            metadatas,
        }
    }
}

/// What the engine keeps of an element beside its content.
#[derive(Debug, PartialEq, Eq)]
pub struct ElementInfo {
    pub name: String,
    pub size: u64,
    pub created_at: Timestamp,
    pub last_modified: Timestamp,
    /// The SHA-256 of the content, in Base64.
    pub checksum: String,
    pub metadatas: Vec<MetaEntry>,
}

impl View for ElementInfo {
    type V = ElementInfoView;

    open spec fn view(&self) -> ElementInfoView {
        ElementInfoView {
            name: self.name@,
            size: self.size,
            created_at: self.created_at,
            last_modified: self.last_modified,
            checksum: self.checksum@,
            metadatas: meta_pairs(self.metadatas@),
        }
    }
}

/// The view of an element that may be missing.
pub open spec fn element_view(element: Option<ElementInfo>) -> Option<ElementInfoView> {
    match element {
        Some(element) => Some(element@),
        None => None,
    }
}

/// The view of a bucket that may be missing.
pub open spec fn database_view(database: Option<DatabaseInfo>) -> Option<DatabaseInfoView> {
    match database {
        Some(database) => Some(database@),
        None => None,
    }
}

/// A copy of the pairs.
pub fn duplicate_entries(entries: &Vec<MetaEntry>) -> (copy: Vec<MetaEntry>)
    ensures
        meta_pairs(copy@) == meta_pairs(entries@),
{
    let mut copy: Vec<MetaEntry> = Vec::new();
    let mut i: usize = 0;
    while i < entries.len()
        invariant
            i <= entries@.len(),
            meta_pairs(copy@) == meta_pairs(entries@.take(i as int)),
        decreases entries@.len() - i,
    {
        let entry = MetaEntry { key: entries[i].key.clone(), value: entries[i].value.clone() };
        let ghost before = copy@;
        copy.push(entry);
        proof {
            let shorter = entries@.take(i as int);
            let longer = entries@.take(i + 1);
            assert(longer =~= shorter.push(entries@[i as int]));
            assert(meta_pairs(before).len() == meta_pairs(shorter).len());
            assert forall|x: int| 0 <= x < longer.len() implies meta_pairs(copy@)[x]
                == meta_pairs(longer)[x] by {
                if x < i {
                    assert(meta_pairs(before)[x] == meta_pairs(shorter)[x]);
                }
            }
            assert(meta_pairs(copy@) =~= meta_pairs(longer));
        }
        i = i + 1;
    }
    assert(entries@.take(i as int) =~= entries@);
    copy
}

impl DatabaseInfo {
    /// A copy of the description.
    pub fn duplicate(&self) -> (copy: Self)
        ensures
            copy@ == self@,
    {
        Self {
            name: self.name.clone(),
            number_element: self.number_element,
            created_at: self.created_at,
        }
    }
}

impl ElementInfo {
    /// A copy of the description.
    pub fn duplicate(&self) -> (copy: Self)
        ensures
            copy@ == self@,
    {
        Self {
            name: self.name.clone(),
            size: self.size,
            created_at: self.created_at,
            last_modified: self.last_modified,
            checksum: self.checksum.clone(),
            metadatas: duplicate_entries(&self.metadatas),
        }
    }

    /// The description of an element whose content was written at `now`.
    pub fn written(
        name: &str,
        size: u64,
        checksum: String,
        metadatas: Vec<MetaEntry>,
        prior: Option<ElementInfo>,
        now: Timestamp,
    ) -> (info: Self)
        ensures
            info@ == ElementInfoView::written(
                name@,
                size,
                checksum@,
                meta_pairs(metadatas@),
                element_view(prior),
                now,
            ),
    {
        let created_at = match prior {
            Some(prior) => prior.created_at,
            None => now,
        };
        Self { name: name.to_owned(), size, created_at, last_modified: now, checksum, metadatas }
    }
}

/// The bucket after `n` insertions.
pub open spec fn grown_times(database: DatabaseInfoView, n: nat) -> DatabaseInfoView
    decreases n,
{
    if n == 0 {
        database
    } else {
        grown_times(database, (n - 1) as nat).grown()
    }
}

/// A bucket that was just made counts `n` elements after `n` insertions, and
/// one less after a deletion that follows them, as far as the count reaches.
pub proof fn lemma_count_follows(name: Seq<char>, now: Timestamp, n: nat)
    requires
        n <= u64::MAX,
    ensures
        grown_times(DatabaseInfoView::fresh(name, now), n) == (DatabaseInfoView {
            number_element: n as u64,
            ..DatabaseInfoView::fresh(name, now)
        }),
        n > 0 ==> grown_times(DatabaseInfoView::fresh(name, now), n).shrunk() == grown_times(
            DatabaseInfoView::fresh(name, now),
            (n - 1) as nat,
        ),
    decreases n,
{
    if n > 0 {
        lemma_count_follows(name, now, (n - 1) as nat);
    }
}

/// Counting an element in and out again leaves the bucket as it was, unless
/// the count was at its end.
pub proof fn lemma_grown_then_shrunk(database: DatabaseInfoView)
    requires
        database.number_element < u64::MAX,
    ensures
        database.grown().shrunk() == database,
{
}

} // verus!
