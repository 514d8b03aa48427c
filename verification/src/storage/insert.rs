//! Inserting an element: what the engine decides between one file operation
//! and the next.

use crate::storage::engine::{Action, ActionView, Event, EventView, Next, NextView};
use crate::storage::errors::FSError;
use crate::storage::fs_storage::{joined, FSStorage};
use crate::storage::info::{
    duplicate_entries, element_view, meta_pairs, DatabaseInfoView, ElementInfo, ElementInfoView,
    MetaEntry, Timestamp,
};
use vstd::prelude::*;
use vstd::string::*;

verus! {

/// How far an insertion has come: the operation that it waits for.
#[derive(Debug, Clone, Copy, PartialEq, Eq, Structural)]
pub enum InsertStage {
    Locking,
    CheckingDatabase,
    Storing,
    LoadingPrior,
    WritingElement,
    ReadingDatabase,
    WritingDatabase,
    Finished,
}

/// What an insertion holds.
pub struct InsertView {
    pub stage: InsertStage,
    /// The metadata file of the bucket.
    pub database_meta: Seq<char>,
    /// The content file of the element.
    pub content: Seq<char>,
    /// The metadata file of the element.
    pub meta: Seq<char>,
    /// The key of the element.
    pub name: Seq<char>,
    pub metadatas: Seq<(Seq<char>, Seq<char>)>,
    /// When the insertion began.
    pub now: Timestamp,
    pub size: u64,
    pub checksum: Seq<char>,
    /// The description of the element, once it is made.
    pub element: Option<ElementInfoView>,
}

impl InsertView {
    /// An insertion of the element `key` into the bucket `db`, below `base`,
    /// that has just begun.
    pub open spec fn begun(
        base: Seq<char>,
        db: Seq<char>,
        key: Seq<char>,
        metadatas: Seq<(Seq<char>, Seq<char>)>,
        now: Timestamp,
    ) -> InsertView {
        InsertView {
            stage: InsertStage::Locking,
            database_meta: joined(base, db + ".meta"@),
            content: joined(joined(base, db), key + ".part"@),
            meta: joined(joined(base, db), key + ".meta"@),
            name: key,
            metadatas,
            now,
            size: 0,
            checksum: Seq::empty(),
            element: None,
        }
    }

    /// The insertion at its end.
    pub open spec fn finished(self) -> InsertView {
        InsertView { stage: InsertStage::Finished, element: None, ..self }
    }

    /// The insertion at another stage.
    pub open spec fn at(self, stage: InsertStage) -> InsertView {
        InsertView { stage, ..self }
    }

    /// The end of an insertion that went well.
    pub open spec fn inserted(self) -> (InsertView, NextView) {
        match self.element {
            Some(info) => (self.finished(), NextView::Inserted(info)),
            None => (self.finished(), NextView::Failed(FSError::Weird)),
        }
    }

    /// What an insertion does on an event.
    ///
    /// It takes the lock, then makes sure that the bucket is there, then has
    /// the content stored, then looks for an older description of the element
    /// (whose time of making it keeps), writes the new one, and at last counts
    /// the element in the bucket. A bucket whose metadata is gone by then is
    /// not counted in. A failure ends it at once, as does an event that it did
    /// not wait for.
    pub open spec fn step(self, event: EventView) -> (InsertView, NextView) {
        match (self.stage, event) {
            (InsertStage::Finished, _) => (self.finished(), NextView::Failed(FSError::Weird)),
            (_, EventView::Failed(error)) => (self.finished(), NextView::Failed(error)),
            (InsertStage::Locking, EventView::Locked) => (
                self.at(InsertStage::CheckingDatabase),
                NextView::Do(ActionView::ReadDatabase { path: self.database_meta }),
            ),
            (InsertStage::CheckingDatabase, EventView::Database(Some(_))) => (
                self.at(InsertStage::Storing),
                NextView::Do(ActionView::StoreContent { path: self.content }),
            ),
            (InsertStage::CheckingDatabase, EventView::Database(None)) => (
                self.finished(),
                NextView::Failed(FSError::NoDatabase),
            ),
            (InsertStage::Storing, EventView::Stored { size, checksum }) => (
                InsertView { stage: InsertStage::LoadingPrior, size, checksum, ..self },
                NextView::Do(ActionView::ReadElement { path: self.meta }),
            ),
            (InsertStage::LoadingPrior, EventView::Element(prior)) => {
                let info = ElementInfoView::written(
                    self.name,
                    self.size,
                    self.checksum,
                    self.metadatas,
                    prior,
                    self.now,
                );
                (
                    InsertView { stage: InsertStage::WritingElement, element: Some(info), ..self },
                    NextView::Do(ActionView::WriteElement { path: self.meta, element: info }),
                )
            },
            (InsertStage::WritingElement, EventView::Written) => (
                self.at(InsertStage::ReadingDatabase),
                NextView::Do(ActionView::ReadDatabase { path: self.database_meta }),
            ),
            (InsertStage::ReadingDatabase, EventView::Database(Some(database))) => (
                self.at(InsertStage::WritingDatabase),
                NextView::Do(
                    ActionView::WriteDatabase {
                        path: self.database_meta,
                        database: database.grown(),
                    },
                ),
            ),
            (InsertStage::ReadingDatabase, EventView::Database(None)) => self.inserted(),
            (InsertStage::WritingDatabase, EventView::Written) => self.inserted(),
            _ => (self.finished(), NextView::Failed(FSError::Weird)),
        }
    }
}

/// The insertion of one element.
#[derive(Debug)]
pub struct InsertElement {
    stage: InsertStage,
    database_meta: String,
    content: String,
    meta: String,
    name: String,
    metadatas: Vec<MetaEntry>,
    now: Timestamp,
    size: u64,
    checksum: String,
    element: Option<ElementInfo>,
}

impl View for InsertElement {
    type V = InsertView;

    closed spec fn view(&self) -> InsertView {
        InsertView {
            stage: self.stage,
            database_meta: self.database_meta@,
            content: self.content@,
            meta: self.meta@,
            name: self.name@,
            metadatas: meta_pairs(self.metadatas@),
            now: self.now,
            size: self.size,
            checksum: self.checksum@,
            element: element_view(self.element),
        }
    }
}

impl FSStorage {
    /// Begins to insert the element `name_elt` into the bucket `db` now, by
    /// the clock. The first thing to do is to take the lock of the element.
    pub fn insert_element_in_database(
        &self,
        db: &str,
        name_elt: &str,
        metadatas: Vec<MetaEntry>,
    ) -> (begun: (InsertElement, Action))
        ensures
            begun.0@ == InsertView::begun(
                self@,
                db@,
                name_elt@,
                meta_pairs(metadatas@),
                begun.0@.now,
            ),
            begun.0@.now.text() is Some,
            begun.1@ == (ActionView::Lock {
                path: joined(joined(self@, db@), name_elt@ + ".lock"@),
            }),
    {
        self.insert_element_in_database_at(db, name_elt, metadatas, Timestamp::now())
    }

    /// Begins to insert the element `name_elt` into the bucket `db` at `now`.
    /// The first thing to do is to take the lock of the element.
    pub fn insert_element_in_database_at(
        &self,
        db: &str,
        name_elt: &str,
        metadatas: Vec<MetaEntry>,
        now: Timestamp,
    ) -> (begun: (InsertElement, Action))
        ensures
            begun.0@ == InsertView::begun(self@, db@, name_elt@, meta_pairs(metadatas@), now),
            begun.1@ == (ActionView::Lock {
                path: joined(joined(self@, db@), name_elt@ + ".lock"@),
            }),
    {
        let insertion = InsertElement {
            stage: InsertStage::Locking,
            database_meta: self.database_path_meta(db),
            content: self.file_path(db, name_elt),
            meta: self.file_meta(db, name_elt),
            name: name_elt.to_owned(),
            metadatas,
            now,
            size: 0,
            checksum: String::new(),
            element: None,
        };
        (insertion, Action::Lock { path: self.file_path_lock(db, name_elt) })
    }
}

impl InsertElement {
    /// The stage that the insertion is at.
    pub fn stage(&self) -> (stage: InsertStage)
        ensures
            stage == self@.stage,
    {
        self.stage
    }

    fn finish(&mut self, next: Next) -> (out: Next)
        ensures
            final(self)@ == old(self)@.finished(),
            out == next,
    {
        self.stage = InsertStage::Finished;
        self.element = None;
        next
    }

    fn finish_inserted(&mut self) -> (out: Next)
        ensures
            (final(self)@, out@) == old(self)@.inserted(),
    {
        self.stage = InsertStage::Finished;
        match self.element.take() {
            Some(info) => Next::Inserted(info),
            None => Next::Failed(FSError::Weird),
        }
    }

    /// Takes in how the last operation ended, and says what comes next.
    pub fn step(&mut self, event: Event) -> (next: Next)
        ensures
            (final(self)@, next@) == old(self)@.step(event@),
    {
        match (self.stage, event) {
            (InsertStage::Finished, _) => self.finish(Next::Failed(FSError::Weird)),
            (_, Event::Failed(error)) => self.finish(Next::Failed(error)),
            (InsertStage::Locking, Event::Locked) => {
                self.stage = InsertStage::CheckingDatabase;
                Next::Do(Action::ReadDatabase { path: self.database_meta.clone() })
            },
            (InsertStage::CheckingDatabase, Event::Database(Some(_))) => {
                self.stage = InsertStage::Storing;
                Next::Do(Action::StoreContent { path: self.content.clone() })
            },
            (InsertStage::CheckingDatabase, Event::Database(None)) => self.finish(
                Next::Failed(FSError::NoDatabase),
            ),
            (InsertStage::Storing, Event::Stored { size, checksum }) => {
                self.stage = InsertStage::LoadingPrior;
                self.size = size;
                self.checksum = checksum;
                Next::Do(Action::ReadElement { path: self.meta.clone() })
            },
            (InsertStage::LoadingPrior, Event::Element(prior)) => {
                let info = ElementInfo::written(
                    self.name.as_str(),
                    self.size,
                    self.checksum.clone(),
                    duplicate_entries(&self.metadatas),
                    prior,
                    self.now,
                );
                let copy = info.duplicate();
                self.stage = InsertStage::WritingElement;
                self.element = Some(info);
                Next::Do(Action::WriteElement { path: self.meta.clone(), element: copy })
            },
            (InsertStage::WritingElement, Event::Written) => {
                self.stage = InsertStage::ReadingDatabase;
                Next::Do(Action::ReadDatabase { path: self.database_meta.clone() })
            },
            (InsertStage::ReadingDatabase, Event::Database(Some(database))) => {
                self.stage = InsertStage::WritingDatabase;
                Next::Do(
                    Action::WriteDatabase {
                        path: self.database_meta.clone(),
                        database: database.grown(),
                    },
                )
            },
            (InsertStage::ReadingDatabase, Event::Database(None)) => self.finish_inserted(),
            (InsertStage::WritingDatabase, Event::Written) => self.finish_inserted(),
            _ => self.finish(Next::Failed(FSError::Weird)),
        }
    }
}

/// An insertion that nothing goes wrong with: whatever the bucket and the
/// older description of the element are, it stores the content, writes a
/// description that keeps the older one's time of making, counts the element
/// in, and ends with that description.
pub proof fn lemma_insert_run(
    begun: InsertView,
    before: DatabaseInfoView,
    size: u64,
    checksum: Seq<char>,
    prior: Option<ElementInfoView>,
    after: DatabaseInfoView,
)
    requires
        begun.stage == InsertStage::Locking,
    ensures
        ({
            let info = ElementInfoView::written(
                begun.name,
                size,
                checksum,
                begun.metadatas,
                prior,
                begun.now,
            );
            let (s1, n1) = begun.step(EventView::Locked);
            let (s2, n2) = s1.step(EventView::Database(Some(before)));
            let (s3, n3) = s2.step(EventView::Stored { size, checksum });
            let (s4, n4) = s3.step(EventView::Element(prior));
            let (s5, n5) = s4.step(EventView::Written);
            let (s6, n6) = s5.step(EventView::Database(Some(after)));
            let (s7, n7) = s6.step(EventView::Written);
            &&& n1 == NextView::Do(ActionView::ReadDatabase { path: begun.database_meta })
            &&& n2 == NextView::Do(ActionView::StoreContent { path: begun.content })
            &&& n3 == NextView::Do(ActionView::ReadElement { path: begun.meta })
            &&& n4 == NextView::Do(ActionView::WriteElement { path: begun.meta, element: info })
            &&& n5 == NextView::Do(ActionView::ReadDatabase { path: begun.database_meta })
            &&& n6 == NextView::Do(
                ActionView::WriteDatabase { path: begun.database_meta, database: after.grown() },
            )
            &&& n7 == NextView::Inserted(info)
            &&& s7.stage == InsertStage::Finished
            &&& info.created_at == match prior {
                Some(prior) => prior.created_at,
                None => begun.now,
            }
        }),
{
}

/// An element is not inserted into a bucket that is not there: the insertion
/// fails before any content is stored.
pub proof fn lemma_insert_needs_bucket(begun: InsertView)
    requires
        begun.stage == InsertStage::Locking,
    ensures
        ({
            let (s1, n1) = begun.step(EventView::Locked);
            let (s2, n2) = s1.step(EventView::Database(None));
            &&& n1 == NextView::Do(ActionView::ReadDatabase { path: begun.database_meta })
            &&& n2 == NextView::Failed(FSError::NoDatabase)
            &&& s2.stage == InsertStage::Finished
        }),
{
}

/// A failure ends an insertion, at whatever stage, with that failure, and
/// after its end an insertion asks for nothing more.
pub proof fn lemma_insert_failure_ends(insertion: InsertView, error: FSError, event: EventView)
    ensures
        insertion.stage != InsertStage::Finished ==> insertion.step(EventView::Failed(error))
            == (insertion.finished(), NextView::Failed(error)),
        insertion.step(event).1 is Failed || insertion.step(event).1 is Inserted
            ==> insertion.step(event).0.stage == InsertStage::Finished,
        insertion.stage == InsertStage::Finished ==> !(insertion.step(event).1 is Do),
        !(insertion.step(event).1 is Deleted),
{
}

/// The lock comes first: an insertion that has just begun asks for nothing
/// but the lock, and goes on to the files of the element only once it is
/// told that the lock is held. Whoever holds the lock works alone on the
/// element, so what two insertions write is never mixed.
pub proof fn lemma_lock_comes_first(insertion: InsertView, event: EventView)
    requires
        insertion.stage == InsertStage::Locking,
    ensures
        insertion.step(event).1 is Do ==> event is Locked,
{
}

} // verus!
