//! Listing the elements of a bucket: a scan of its directory.

use crate::storage::errors::FSError;
use crate::storage::fs_storage::{joined, FSStorage};
use crate::storage::info::{ElementInfo, ElementInfoView};
use vstd::prelude::*;
use vstd::string::*;

verus! {

/// The bytes of `.meta`, which the name of every metadata file ends with.
pub open spec fn sidecar_suffix() -> Seq<u8> {
    seq![0x2eu8, 0x6du8, 0x65u8, 0x74u8, 0x61u8]
}

/// Whether a file of this name holds the metadata of an element.
pub open spec fn is_sidecar(name: Seq<u8>) -> bool {
    name.len() >= 5 && name.skip(name.len() - 5) == sidecar_suffix()
}

/// What is done with one entry of a bucket's directory when its elements are
/// listed.
#[derive(Debug, Clone, Copy, PartialEq, Eq, Structural)]
pub enum Entry {
    /// It holds the metadata of an element: read it.
    Sidecar,
    /// It is another file: pass over it.
    Other,
    /// Its name is no text: the listing ends with a failure.
    Unreadable,
}

/// What is done with the directory entry `name` when the elements of a bucket
/// are listed; `None` stands for a name that is no text.
pub open spec fn entry_of(name: Option<Seq<u8>>) -> Entry {
    match name {
        None => Entry::Unreadable,
        Some(name) => if is_sidecar(name) {
            Entry::Sidecar
        } else {
            Entry::Other
        },
    }
}

/// What is done with the directory entry `name`.
pub fn entry_kind(name: Option<&str>) -> (entry: Entry)
    ensures
        entry == entry_of(
            match name {
                Some(name) => Some(name.spec_bytes()),
                None => None,
            },
        ),
{
    match name {
        None => Entry::Unreadable,
        Some(name) => {
            let bytes = name.as_bytes();
            let len = bytes.len();
            if len < 5 {
                return Entry::Other;
            }
            let ghost tail = bytes@.skip(len - 5);
            assert(tail.len() == 5);
            assert(tail[0] == bytes@[len - 5] && tail[1] == bytes@[len - 4] && tail[2] == bytes@[len
                - 3] && tail[3] == bytes@[len - 2] && tail[4] == bytes@[len - 1]);
            if bytes[len - 5] == 0x2e && bytes[len - 4] == 0x6d && bytes[len - 3] == 0x65
                && bytes[len - 2] == 0x74 && bytes[len - 1] == 0x61 {
                assert(tail =~= sidecar_suffix());
                Entry::Sidecar
            } else {
                Entry::Other
            }
        },
    }
}

/// How the reading of one element's metadata ended, by its view.
pub open spec fn read_view(read: Result<ElementInfo, FSError>) -> Result<
    ElementInfoView,
    FSError,
> {
    match read {
        Ok(info) => Ok(info@),
        Err(error) => Err(error),
    }
}

/// What a listing holds.
pub struct ListingView {
    /// What was read so far, in order.
    pub listed: Seq<Result<ElementInfoView, FSError>>,
    /// Whether the listing still takes entries.
    pub open: bool,
}

impl ListingView {
    /// A listing that has just begun.
    pub open spec fn begun() -> ListingView {
        ListingView { listed: Seq::empty(), open: true }
    }

    /// The listing after the directory gave an entry of this name, and what
    /// is done with the entry. An entry whose name is no text ends the
    /// listing with a failure. A listing that has ended passes over
    /// everything.
    pub open spec fn entry(self, name: Option<Seq<u8>>) -> (ListingView, Entry) {
        if !self.open {
            (self, Entry::Other)
        } else if name is None {
            (
                ListingView { listed: self.listed.push(Err(FSError::Weird)), open: false },
                Entry::Unreadable,
            )
        } else {
            (self, entry_of(name))
        }
    }

    /// The listing after the metadata of an element was read, or could not
    /// be: what came of it is listed, and a failure ends the listing.
    pub open spec fn read(self, read: Result<ElementInfoView, FSError>) -> ListingView {
        if !self.open {
            self
        } else {
            ListingView { listed: self.listed.push(read), open: read is Ok }
        }
    }
}

/// The listing of the elements of a bucket: a scan of its directory, entry
/// by entry, that reads every metadata file and ends with the first failure.
#[derive(Debug)]
pub struct Listing {
    listed: Vec<Result<ElementInfo, FSError>>,
    open: bool,
}

impl View for Listing {
    type V = ListingView;

    closed spec fn view(&self) -> ListingView {
        ListingView {
            listed: self.listed@.map_values(|read: Result<ElementInfo, FSError>| read_view(read)),
            open: self.open,
        }
    }
}

impl FSStorage {
    /// Begins to list the elements of the bucket `db`: the listing, and the
    /// directory whose entries it is to be given.
    pub fn list_element_in_database(&self, db: &str) -> (begun: (Listing, String))
        ensures
            begun.0@ == ListingView::begun(),
            begun.1@ == joined(self@, db@),
    {
        let listing = Listing { listed: Vec::new(), open: true };
        assert(listing@.listed =~= Seq::empty());
        (listing, self.database_path(db))
    }
}

impl Listing {
    /// Whether the listing still takes entries.
    pub fn is_open(&self) -> (open: bool)
        ensures
            open == self@.open,
    {
        self.open
    }

    /// Takes the next entry of the directory, and says what is to be done
    /// with it.
    pub fn entry(&mut self, name: Option<&str>) -> (entry: Entry)
        ensures
            (final(self)@, entry) == old(self)@.entry(
                match name {
                    Some(name) => Some(name.spec_bytes()),
                    None => None,
                },
            ),
    {
        if !self.open {
            return Entry::Other;
        }
        match name {
            None => {
                self.push(Err(FSError::Weird));
                self.open = false;
                Entry::Unreadable
            },
            Some(_) => entry_kind(name),
        }
    }

    /// Takes in what reading the metadata of an element came to.
    pub fn read(&mut self, read: Result<ElementInfo, FSError>)
        ensures
            final(self)@ == old(self)@.read(read_view(read)),
    {
        if self.open {
            let went_well = read.is_ok();
            self.push(read);
            self.open = went_well;
        }
    }

    fn push(&mut self, read: Result<ElementInfo, FSError>)
        ensures
            final(self)@ == (ListingView {
                listed: old(self)@.listed.push(read_view(read)),
                ..old(self)@
            }),
    {
        let ghost before = self.listed@;
        self.listed.push(read);
        assert(self@.listed =~= old(self)@.listed.push(read_view(read)));
    }

    /// What was read, in order.
    pub fn finish(self) -> (listed: Vec<Result<ElementInfo, FSError>>)
        ensures
            listed@.map_values(|read: Result<ElementInfo, FSError>| read_view(read))
                == self@.listed,
    {
        self.listed
    }
}

/// A listing ends with its first failure: once the metadata of an element
/// could not be read, the failure is the last thing listed, and whatever the
/// directory gives after it changes nothing.
pub proof fn lemma_listing_ends_with_failure(
    listing: ListingView,
    error: FSError,
    name: Option<Seq<u8>>,
    read: Result<ElementInfoView, FSError>,
)
    requires
        listing.open,
    ensures
        ({
            let failed = listing.read(Err(error));
            &&& !failed.open
            &&& failed.listed == listing.listed.push(Err(error))
            &&& failed.entry(name) == (failed, Entry::Other)
            &&& failed.read(read) == failed
        }),
{
}

/// As long as nothing fails, a listing grows by one for each element whose
/// metadata is read, and by nothing for any other file.
pub proof fn lemma_listing_grows_by_elements(
    listing: ListingView,
    name: Seq<u8>,
    info: ElementInfoView,
)
    requires
        listing.open,
    ensures
        listing.entry(Some(name)).0 == listing,
        listing.entry(Some(name)).1 == if is_sidecar(name) {
            Entry::Sidecar
        } else {
            Entry::Other
        },
        listing.read(Ok(info)).open,
        listing.read(Ok(info)).listed == listing.listed.push(Ok(info)),
        listing.read(Ok(info)).listed.len() == listing.listed.len() + 1,
{
}

} // verus!
