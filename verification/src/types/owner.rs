//! The owner of an object.

use crate::text::opt_text;
use vstd::prelude::*;

verus! {

/// What an `Owner` holds.
pub struct OwnerView {
    pub display_name: Option<Seq<char>>,
    pub id: Option<Seq<char>>,
}

impl OwnerView {
    /// The value with every field empty.
    pub open spec fn empty() -> OwnerView {
        OwnerView {
            display_name: None,
            id: None,
        }
    }
}

/// The display name and the ID of an owner.
#[derive(Debug)]
pub struct Owner {
    pub display_name: Option<String>,
    pub id: Option<String>,
}

impl View for Owner {
    type V = OwnerView;

    open spec fn view(&self) -> OwnerView {
        OwnerView {
            display_name: opt_text(self.display_name),
            id: opt_text(self.id),
        }
    }
}

impl Default for Owner {
    fn default() -> (value: Self)
        ensures
            value@ == OwnerView::empty(),
    {
        let value = Owner {
            display_name: None,
            id: None,
        };
        value
    }
}

/// The view of an owner that may be missing.
pub open spec fn opt_owner(owner: Option<Owner>) -> Option<OwnerView> {
    match owner {
        Some(owner) => Some(owner@),
        None => None,
    }
}

} // verus!
