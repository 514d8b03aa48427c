//! What passes between the file-backed engine and whoever drives it.
//!
//! Inserting and deleting an element each take several file operations, and
//! what comes next depends on how the last one ended. The engine never
//! touches a file: it names the next operation as an `Action`, is told how it
//! ended as an `Event`, and says when the whole is done. Whoever drives it
//! holds the lock from the `Lock` action until the end, however it ends.

use crate::storage::errors::FSError;
use crate::storage::info::{
    database_view, element_view, DatabaseInfo, DatabaseInfoView, ElementInfo, ElementInfoView,
};
use vstd::prelude::*;
use vstd::string::*;

verus! {

/// How a file operation ended.
#[derive(Debug)]
pub enum Event {
    /// The lock is held.
    Locked,
    /// The metadata of the bucket was looked for: what was found.
    Database(Option<DatabaseInfo>),
    /// The content was written: how many bytes, and their checksum.
    Stored { size: u64, checksum: String },
    /// The metadata of the element was looked for: what was found.
    Element(Option<ElementInfo>),
    /// The metadata was written.
    Written,
    /// Both files of the element were told to go: what went wrong with each.
    Removed { content: Option<FSError>, meta: Option<FSError> },
    /// The operation failed.
    Failed(FSError),
}

pub enum EventView {
    Locked,
    Database(Option<DatabaseInfoView>),
    Stored { size: u64, checksum: Seq<char> },
    Element(Option<ElementInfoView>),
    Written,
    Removed { content: Option<FSError>, meta: Option<FSError> },
    Failed(FSError),
}

impl View for Event {
    type V = EventView;

    open spec fn view(&self) -> EventView {
        match self {
            Event::Locked => EventView::Locked,
            Event::Database(found) => EventView::Database(database_view(*found)),
            Event::Stored { size, checksum } => EventView::Stored {
                size: *size,
                checksum: checksum@,
            },
            Event::Element(found) => EventView::Element(element_view(*found)),
            Event::Written => EventView::Written,
            Event::Removed { content, meta } => EventView::Removed {
                content: *content,
                meta: *meta,
            },
            Event::Failed(error) => EventView::Failed(*error),
        }
    }
}

/// A file operation that the engine asks for.
#[derive(Debug)]
pub enum Action {
    /// Take the lock at `path`, making the file where it is missing.
    Lock { path: String },
    /// Look for the metadata of a bucket at `path`.
    ReadDatabase { path: String },
    /// Make the file at `path` and copy the incoming content into it, byte
    /// for byte, through a checksum.
    StoreContent { path: String },
    /// Look for the metadata of an element at `path`.
    ReadElement { path: String },
    /// Write `element` at `path`.
    WriteElement { path: String, element: ElementInfo },
    /// Write `database` at `path`.
    WriteDatabase { path: String, database: DatabaseInfo },
    /// Remove the files at `content` and at `meta`.
    Remove { content: String, meta: String },
}

pub enum ActionView {
    Lock { path: Seq<char> },
    ReadDatabase { path: Seq<char> },
    StoreContent { path: Seq<char> },
    ReadElement { path: Seq<char> },
    WriteElement { path: Seq<char>, element: ElementInfoView },
    WriteDatabase { path: Seq<char>, database: DatabaseInfoView },
    Remove { content: Seq<char>, meta: Seq<char> },
}

impl View for Action {
    type V = ActionView;

    open spec fn view(&self) -> ActionView {
        match self {
            Action::Lock { path } => ActionView::Lock { path: path@ },
            Action::ReadDatabase { path } => ActionView::ReadDatabase { path: path@ },
            Action::StoreContent { path } => ActionView::StoreContent { path: path@ },
            Action::ReadElement { path } => ActionView::ReadElement { path: path@ },
            Action::WriteElement { path, element } => ActionView::WriteElement {
                path: path@,
                element: element@,
            },
            Action::WriteDatabase { path, database } => ActionView::WriteDatabase {
                path: path@,
                database: database@,
            },
            Action::Remove { content, meta } => ActionView::Remove {
                content: content@,
                meta: meta@,
            },
        }
    }
}

/// What comes after an event: one more operation, or the end.
#[derive(Debug)]
pub enum Next {
    /// Do this, and come back with how it ended.
    Do(Action),
    /// The element is in the bucket.
    Inserted(ElementInfo),
    /// The element is gone.
    Deleted,
    /// The whole failed.
    Failed(FSError),
}

pub enum NextView {
    Do(ActionView),
    Inserted(ElementInfoView),
    Deleted,
    Failed(FSError),
}

impl View for Next {
    type V = NextView;

    open spec fn view(&self) -> NextView {
        match self {
            Next::Do(action) => NextView::Do(action@),
            Next::Inserted(info) => NextView::Inserted(info@),
            Next::Deleted => NextView::Deleted,
            Next::Failed(error) => NextView::Failed(*error),
        }
    }
}

} // verus!
