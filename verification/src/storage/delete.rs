//! Deleting an element: what the engine decides between one file operation
//! and the next.

use crate::storage::engine::{Action, ActionView, Event, EventView, Next, NextView};
use crate::storage::errors::FSError;
use crate::storage::fs_storage::{joined, FSStorage};
use crate::storage::info::DatabaseInfoView;
use vstd::prelude::*;
use vstd::string::*;

verus! {

/// How far a deletion has come: the operation that it waits for.
#[derive(Debug, Clone, Copy, PartialEq, Eq, Structural)]
pub enum DeleteStage {
    Locking,
    Removing,
    ReadingDatabase,
    WritingDatabase,
    Finished,
}

/// What a deletion holds.
pub struct DeleteView {
    pub stage: DeleteStage,
    /// The metadata file of the bucket.
    pub database_meta: Seq<char>,
    /// The content file of the element.
    pub content: Seq<char>,
    /// The metadata file of the element.
    pub meta: Seq<char>,
}

impl DeleteView {
    /// A deletion of the element `key` from the bucket `db`, below `base`,
    /// that has just begun.
    pub open spec fn begun(base: Seq<char>, db: Seq<char>, key: Seq<char>) -> DeleteView {
        DeleteView {
            stage: DeleteStage::Locking,
            database_meta: joined(base, db + ".meta"@),
            content: joined(joined(base, db), key + ".part"@),
            meta: joined(joined(base, db), key + ".meta"@),
        }
    }

    /// The deletion at another stage.
    pub open spec fn at(self, stage: DeleteStage) -> DeleteView {
        DeleteView { stage, ..self }
    }

    /// What a deletion does on an event.
    ///
    /// It takes the lock, then has both files of the element removed, and
    /// then counts the element out of the bucket. Where either file could not
    /// be removed the deletion fails, with the failure of the content file
    /// first, and the count stays. A bucket whose metadata is gone is not
    /// counted out of. A failure ends it at once, as does an event that it
    /// did not wait for.
    pub open spec fn step(self, event: EventView) -> (DeleteView, NextView) {
        match (self.stage, event) {
            (DeleteStage::Finished, _) => (self, NextView::Failed(FSError::Weird)),
            (_, EventView::Failed(error)) => (
                self.at(DeleteStage::Finished),
                NextView::Failed(error),
            ),
            (DeleteStage::Locking, EventView::Locked) => (
                self.at(DeleteStage::Removing),
                NextView::Do(ActionView::Remove { content: self.content, meta: self.meta }),
            ),
            (DeleteStage::Removing, EventView::Removed { content: Some(error), meta: _ }) => (
                self.at(DeleteStage::Finished),
                NextView::Failed(error),
            ),
            (DeleteStage::Removing, EventView::Removed { content: None, meta: Some(error) }) => (
                self.at(DeleteStage::Finished),
                NextView::Failed(error),
            ),
            (DeleteStage::Removing, EventView::Removed { content: None, meta: None }) => (
                self.at(DeleteStage::ReadingDatabase),
                NextView::Do(ActionView::ReadDatabase { path: self.database_meta }),
            ),
            (DeleteStage::ReadingDatabase, EventView::Database(Some(database))) => (
                self.at(DeleteStage::WritingDatabase),
                NextView::Do(
                    ActionView::WriteDatabase {
                        path: self.database_meta,
                        database: database.shrunk(),
                    },
                ),
            ),
            (DeleteStage::ReadingDatabase, EventView::Database(None)) => (
                self.at(DeleteStage::Finished),
                NextView::Deleted,
            ),
            (DeleteStage::WritingDatabase, EventView::Written) => (
                self.at(DeleteStage::Finished),
                NextView::Deleted,
            ),
            _ => (self.at(DeleteStage::Finished), NextView::Failed(FSError::Weird)),
        }
    }
}

/// The deletion of one element.
#[derive(Debug)]
pub struct DeleteElement {
    stage: DeleteStage,
    database_meta: String,
    content: String,
    meta: String,
}

impl View for DeleteElement {
    type V = DeleteView;

    closed spec fn view(&self) -> DeleteView {
        DeleteView {
            stage: self.stage,
            database_meta: self.database_meta@,
            content: self.content@,
            meta: self.meta@,
        }
    }
}

impl FSStorage {
    /// Begins to delete the element `key` from the bucket `db`. The first
    /// thing to do is to take the lock of the element.
    pub fn delete_element_in_database(&self, db: &str, key: &str) -> (begun: (
        DeleteElement,
        Action,
    ))
        ensures
            begun.0@ == DeleteView::begun(self@, db@, key@),
            begun.1@ == (ActionView::Lock { path: joined(joined(self@, db@), key@ + ".lock"@) }),
    {
        let deletion = DeleteElement {
            stage: DeleteStage::Locking,
            database_meta: self.database_path_meta(db),
            content: self.file_path(db, key),
            meta: self.file_meta(db, key),
        };
        (deletion, Action::Lock { path: self.file_path_lock(db, key) })
    }
}

impl DeleteElement {
    /// The stage that the deletion is at.
    pub fn stage(&self) -> (stage: DeleteStage)
        ensures
            stage == self@.stage,
    {
        self.stage
    }

    fn finish(&mut self, next: Next) -> (out: Next)
        ensures
            final(self)@ == old(self)@.at(DeleteStage::Finished),
            out == next,
    {
        self.stage = DeleteStage::Finished;
        next
    }

    /// Takes in how the last operation ended, and says what comes next.
    pub fn step(&mut self, event: Event) -> (next: Next)
        ensures
            (final(self)@, next@) == old(self)@.step(event@),
    {
        match (self.stage, event) {
            (DeleteStage::Finished, _) => Next::Failed(FSError::Weird),
            (_, Event::Failed(error)) => self.finish(Next::Failed(error)),
            (DeleteStage::Locking, Event::Locked) => {
                self.stage = DeleteStage::Removing;
                Next::Do(Action::Remove { content: self.content.clone(), meta: self.meta.clone() })
            },
            (DeleteStage::Removing, Event::Removed { content: Some(error), meta: _ }) => {
                self.finish(Next::Failed(error))
            },
            (DeleteStage::Removing, Event::Removed { content: None, meta: Some(error) }) => {
                self.finish(Next::Failed(error))
            },
            (DeleteStage::Removing, Event::Removed { content: None, meta: None }) => {
                self.stage = DeleteStage::ReadingDatabase;
                Next::Do(Action::ReadDatabase { path: self.database_meta.clone() })
            },
            (DeleteStage::ReadingDatabase, Event::Database(Some(database))) => {
                self.stage = DeleteStage::WritingDatabase;
                Next::Do(
                    Action::WriteDatabase {
                        path: self.database_meta.clone(),
                        database: database.shrunk(),
                    },
                )
            },
            (DeleteStage::ReadingDatabase, Event::Database(None)) => self.finish(Next::Deleted),
            (DeleteStage::WritingDatabase, Event::Written) => self.finish(Next::Deleted),
            _ => self.finish(Next::Failed(FSError::Weird)),
        }
    }
}

/// A deletion that nothing goes wrong with removes both files, counts the
/// element out, and ends.
pub proof fn lemma_delete_run(begun: DeleteView, database: DatabaseInfoView)
    requires
        begun.stage == DeleteStage::Locking,
    ensures
        ({
            let (s1, n1) = begun.step(EventView::Locked);
            let (s2, n2) = s1.step(EventView::Removed { content: None, meta: None });
            let (s3, n3) = s2.step(EventView::Database(Some(database)));
            let (s4, n4) = s3.step(EventView::Written);
            &&& n1 == NextView::Do(
                ActionView::Remove { content: begun.content, meta: begun.meta },
            )
            &&& n2 == NextView::Do(ActionView::ReadDatabase { path: begun.database_meta })
            &&& n3 == NextView::Do(
                ActionView::WriteDatabase {
                    path: begun.database_meta,
                    database: database.shrunk(),
                },
            )
            &&& n4 == NextView::Deleted
            &&& s4.stage == DeleteStage::Finished
        }),
{
}

/// Deleting what is not there fails: where either file of the element could
/// not be removed, the deletion ends with a failure, never with success, and
/// the bucket's count is not touched.
pub proof fn lemma_delete_of_absent_fails(
    begun: DeleteView,
    content: Option<FSError>,
    meta: Option<FSError>,
)
    requires
        begun.stage == DeleteStage::Locking,
        content is Some || meta is Some,
    ensures
        ({
            let (s1, n1) = begun.step(EventView::Locked);
            let (s2, n2) = s1.step(EventView::Removed { content, meta });
            &&& n2 == NextView::Failed(
                if content is Some {
                    content->0
                } else {
                    meta->0
                },
            )
            &&& s2.stage == DeleteStage::Finished
        }),
{
}

/// A failure ends a deletion, at whatever stage, with that failure, and after
/// its end a deletion asks for nothing more.
pub proof fn lemma_delete_failure_ends(deletion: DeleteView, error: FSError, event: EventView)
    ensures
        deletion.stage != DeleteStage::Finished ==> deletion.step(EventView::Failed(error)) == (
            deletion.at(DeleteStage::Finished),
            NextView::Failed(error),
        ),
        deletion.step(event).1 is Failed || deletion.step(event).1 is Deleted
            ==> deletion.step(event).0.stage == DeleteStage::Finished,
        deletion.stage == DeleteStage::Finished ==> !(deletion.step(event).1 is Do),
        !(deletion.step(event).1 is Inserted),
{
}

/// The lock comes first: a deletion that has just begun asks for nothing but
/// the lock, and goes on to the files of the element only once it is told
/// that the lock is held.
pub proof fn lemma_lock_comes_first(deletion: DeleteView, event: EventView)
    requires
        deletion.stage == DeleteStage::Locking,
    ensures
        deletion.step(event).1 is Do ==> event is Locked,
{
}

} // verus!
