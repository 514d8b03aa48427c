//! One object of a listing.

use crate::text::opt_text;
use crate::types::owner::{opt_owner, Owner, OwnerView};
use vstd::prelude::*;

verus! {

/// What an `Object` holds.
pub struct ObjectView {
    pub e_tag: Option<Seq<char>>,
    pub key: Option<Seq<char>>,
    pub last_modified: Option<Seq<char>>,
    pub owner: Option<OwnerView>,
    pub size: Option<i64>,
    pub storage_class: Option<Seq<char>>,
}

impl ObjectView {
    /// The value with every field empty.
    pub open spec fn empty() -> ObjectView {
        ObjectView {
            e_tag: None,
            key: None,
            last_modified: None,
            owner: None,
            size: None,
            storage_class: None,
        }
    }
}

/// An object as a listing tells of it.
#[derive(Debug)]
pub struct Object {
    /// A tag that changes with the content of the object.
    pub e_tag: Option<String>,
    pub key: Option<String>,
    pub last_modified: Option<String>,
    pub owner: Option<Owner>,
    /// The size of the content in bytes.
    pub size: Option<i64>,
    pub storage_class: Option<String>,
}

impl View for Object {
    type V = ObjectView;

    open spec fn view(&self) -> ObjectView {
        ObjectView {
            e_tag: opt_text(self.e_tag),
            key: opt_text(self.key),
            last_modified: opt_text(self.last_modified),
            owner: opt_owner(self.owner),
            size: self.size,
            storage_class: opt_text(self.storage_class),
        }
    }
}

impl Default for Object {
    fn default() -> (value: Self)
        ensures
            value@ == ObjectView::empty(),
    {
        let value = Object {
            e_tag: None,
            key: None,
            last_modified: None,
            owner: None,
            size: None,
            storage_class: None,
        };
        value
    }
}

/// The views of objects.
pub open spec fn objects(objects: Seq<Object>) -> Seq<ObjectView> {
    objects.map_values(|o: Object| o@)
}

/// The views of objects that may be missing.
pub open spec fn opt_objects(found: Option<Vec<Object>>) -> Option<Seq<ObjectView>> {
    match found {
        Some(found) => Some(objects(found@)),
        None => None,
    }
}

} // verus!
