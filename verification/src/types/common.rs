//! What several listings share.

use crate::text::opt_text;
use vstd::prelude::*;

verus! {

/// What a `CommonPrefix` holds.
pub struct CommonPrefixView {
    pub prefix: Option<Seq<char>>,
}

impl CommonPrefixView {
    /// The value with every field empty.
    pub open spec fn empty() -> CommonPrefixView {
        CommonPrefixView {
            prefix: None,
        }
    }
}

/// The keys that lie between a prefix and the next delimiter, told as one:
/// with the prefix `notes/` and the delimiter `/`, the key `notes/summer/july`
/// falls under the common prefix `notes/summer/`.
#[derive(Debug)]
pub struct CommonPrefix {
    pub prefix: Option<String>,
}

impl View for CommonPrefix {
    type V = CommonPrefixView;

    open spec fn view(&self) -> CommonPrefixView {
        CommonPrefixView {
            prefix: opt_text(self.prefix),
        }
    }
}

impl Default for CommonPrefix {
    fn default() -> (value: Self)
        ensures
            value@ == CommonPrefixView::empty(),
    {
        let value = CommonPrefix {
            prefix: None,
        };
        value
    }
}

/// The views of common prefixes that may be missing.
pub open spec fn opt_prefixes(prefixes: Option<Vec<CommonPrefix>>) -> Option<
    Seq<CommonPrefixView>,
> {
    match prefixes {
        Some(prefixes) => Some(prefixes@.map_values(|p: CommonPrefix| p@)),
        None => None,
    }
}

} // verus!
