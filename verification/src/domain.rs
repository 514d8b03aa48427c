//! Buckets and objects as the protocol sees them, on top of a storage engine.
//!
//! The engine does its work between the two halves of each operation here:
//! the first half says what the engine is to be asked, the second, whose name
//! ends in `_done`, makes the answer of what the engine came back with.

use crate::storage::listing::read_view;
use crate::storage::errors::{BucketStorageError, FSError};
use crate::storage::fs_storage::FSStorage;
use crate::storage::info::{
    meta_pairs, DatabaseInfo, ElementInfo, ElementInfoView, MetaEntry, Timestamp,
};
use crate::types::create_bucket_configuration::{
    CreateBucketOutput, CreateBucketOutputView, CreateBucketRequest,
};
use crate::types::delete_object::{DeleteObjectOutput, DeleteObjectOutputView, DeleteObjectRequest};
use crate::types::get_object::{GetObjectOutput, GetObjectOutputView, GetObjectRequest};
use crate::types::list_object_v2::{
    ListObjectsV2Output, ListObjectsV2OutputView, ListObjectsV2Request,
};
use crate::types::object::{objects, Object, ObjectView};
use crate::types::put_object::{PutObjectOutput, PutObjectOutputView, PutObjectRequest};
use vstd::prelude::*;
use vstd::string::*;

verus! {

/// A storage engine that buckets can be kept in.
pub trait BackendDriver {
}

impl BackendDriver for FSStorage {
}

/// The buckets of the application, kept in the engine `T`.
#[derive(Debug, Clone)]
pub struct BucketStorage<T: BackendDriver> {
    backend_storage: T,
}

/// An element of a bucket: the bucket and the key.
#[derive(Debug)]
pub struct ElementName {
    pub bucket: String,
    pub key: String,
}

impl View for ElementName {
    type V = (Seq<char>, Seq<char>);

    open spec fn view(&self) -> (Seq<char>, Seq<char>) {
        (self.bucket@, self.key@)
    }
}

/// An element to insert: the bucket, the key, and the user metadata.
#[derive(Debug)]
pub struct NewElement {
    pub bucket: String,
    pub key: String,
    pub metadatas: Vec<MetaEntry>,
}

impl View for NewElement {
    type V = (Seq<char>, Seq<char>, Seq<(Seq<char>, Seq<char>)>);

    open spec fn view(&self) -> (Seq<char>, Seq<char>, Seq<(Seq<char>, Seq<char>)>) {
        (self.bucket@, self.key@, meta_pairs(self.metadatas@))
    }
}

/// The answer to making the bucket `name`.
pub open spec fn bucket_made(name: Seq<char>) -> CreateBucketOutputView {
    CreateBucketOutputView { location: Some("/"@ + name) }
}

/// The answer to putting an object.
pub open spec fn object_put() -> PutObjectOutputView {
    PutObjectOutputView { e_tag: Some("unimplemented"@), ..PutObjectOutputView::empty() }
}

/// An element as a listing tells of it.
pub open spec fn listed_object(info: ElementInfoView) -> ObjectView {
    ObjectView {
        e_tag: Some(info.checksum),
        key: Some(info.name),
        last_modified: info.last_modified.text(),
        owner: None,
        size: Some(info.size as i64),
        storage_class: None,
    }
}

/// The objects of a listing: one for each element whose metadata could be
/// read, in the order of the read; what could not be read is passed over.
pub open spec fn listed_objects(read: Seq<Result<ElementInfo, FSError>>) -> Seq<ObjectView>
    decreases read.len(),
{
    if read.len() == 0 {
        Seq::empty()
    } else {
        match read_view(read.last()) {
            Ok(info) => listed_objects(read.drop_last()).push(listed_object(info)),
            Err(_) => listed_objects(read.drop_last()),
        }
    }
}

/// The answer to listing a bucket whose elements were read as `read`.
pub open spec fn bucket_listed(read: Seq<Result<ElementInfo, FSError>>) -> ListObjectsV2OutputView {
    ListObjectsV2OutputView {
        contents: Some(listed_objects(read)),
        ..ListObjectsV2OutputView::empty()
    }
}

/// The answer to getting the object that `info` describes.
pub open spec fn object_got(info: ElementInfoView) -> GetObjectOutputView {
    GetObjectOutputView {
        content_length: Some(info.size as i64),
        e_tag: Some(info.checksum),
        last_modified: info.last_modified.text(),
        metadata: Some(info.metadatas),
        ..GetObjectOutputView::empty()
    }
}

/// A listing tells of every element that was read, in the order of the
/// read: where nothing failed, it holds as many objects as there were
/// elements, each under the name of its element.
pub proof fn lemma_listing_tells_every_element(read: Seq<Result<ElementInfo, FSError>>)
    requires
        forall|i: int| 0 <= i < read.len() ==> (#[trigger] read[i]) is Ok,
    ensures
        listed_objects(read).len() == read.len(),
        forall|i: int|
            0 <= i < read.len() ==> #[trigger] listed_objects(read)[i] == listed_object(
                read[i]->Ok_0@,
            ),
    decreases read.len(),
{
    if read.len() > 0 {
        let shorter = read.drop_last();
        assert forall|i: int| 0 <= i < shorter.len() implies (#[trigger] shorter[i]) is Ok by {
            assert(shorter[i] == read[i]);
        }
        lemma_listing_tells_every_element(shorter);
        assert(read.last() is Ok);
        assert forall|i: int| 0 <= i < read.len() implies #[trigger] listed_objects(read)[i]
            == listed_object(read[i]->Ok_0@) by {
            if i < shorter.len() {
                assert(shorter[i] == read[i]);
                assert(listed_objects(read)[i] == listed_objects(shorter)[i]);
            }
        }
    }
}

/// What is told of an element is what was written about it: the size and the
/// checksum that its content was stored with are the length and the tag of
/// getting it, and a listing tells of it under its key.
pub proof fn lemma_told_as_written(
    name: Seq<char>,
    size: u64,
    checksum: Seq<char>,
    metadatas: Seq<(Seq<char>, Seq<char>)>,
    prior: Option<ElementInfoView>,
    now: Timestamp,
)
    ensures
        ({
            let info = ElementInfoView::written(name, size, checksum, metadatas, prior, now);
            &&& object_got(info).content_length == Some(size as i64)
            &&& object_got(info).e_tag == Some(checksum)
            &&& object_got(info).metadata == Some(metadatas)
            &&& object_got(info).last_modified == now.text()
            &&& listed_object(info).key == Some(name)
            &&& listed_object(info).size == Some(size as i64)
            &&& listed_object(info).e_tag == Some(checksum)
        }),
{
}

/// An element that could not be read leaves the listing as it is without it.
pub proof fn lemma_listing_passes_over_failures(
    read: Seq<Result<ElementInfo, FSError>>,
    error: FSError,
)
    ensures
        listed_objects(read.push(Err(error))) == listed_objects(read),
{
    assert(read.push(Err(error)).drop_last() =~= read);
}

impl<T: BackendDriver> BucketStorage<T> {
    /// The engine that a `BucketStorage` keeps its buckets in.
    pub closed spec fn engine(self) -> T {
        self.backend_storage
    }

    pub fn new(storage: T) -> (buckets: Self)
        ensures
            buckets.engine() == storage,
    {
        Self { backend_storage: storage }
    }

    /// The engine that the buckets are kept in.
    pub fn backend(&self) -> (engine: &T)
        ensures
            *engine == self.engine(),
    {
        &self.backend_storage
    }

    /// The name of the bucket that the engine is to make.
    pub fn create_new_bucket(&self, request: CreateBucketRequest) -> (name: String)
        ensures
            name@ == request@.bucket,
    {
        request.bucket
    }

    /// The answer to making a bucket: its path where the engine made it, and
    /// what the domain makes of the engine's failure where it did not.
    pub fn create_new_bucket_done(&self, made: Result<DatabaseInfo, FSError>) -> (answer: Result<
        CreateBucketOutput,
        BucketStorageError,
    >)
        ensures
            match made {
                Ok(info) => answer matches Ok(output) && output@ == bucket_made(info@.name),
                Err(error) => answer == Err::<CreateBucketOutput, BucketStorageError>(
                    BucketStorageError::of(error),
                ),
            },
    {
        match made {
            Ok(info) => {
                let mut location = String::from_str("/");
                location.append(info.name());
                Ok(CreateBucketOutput { location: Some(location) })
            },
            Err(error) => Err(BucketStorageError::from(error)),
        }
    }

    /// The element that the engine is to insert. A request without content
    /// is refused as `Unknown`; one without user metadata inserts none.
    pub fn put_object(&self, request: PutObjectRequest) -> (asked: Result<
        NewElement,
        BucketStorageError,
    >)
        ensures
            match asked {
                Ok(element) => request@.body && element@ == (
                    request@.bucket,
                    request@.key,
                    match request@.metadata {
                        Some(metadata) => metadata,
                        None => Seq::empty(),
                    },
                ),
                Err(error) => !request@.body && error == BucketStorageError::Unknown,
            },
    {
        if request.body.is_none() {
            return Err(BucketStorageError::Unknown);
        }
        let metadatas = match request.metadata {
            Some(metadata) => metadata,
            None => {
                let none: Vec<MetaEntry> = Vec::new();
                assert(meta_pairs(none@) =~= Seq::empty());
                none
            },
        };
        Ok(NewElement { bucket: request.bucket, key: request.key, metadatas })
    }

    /// The answer to putting an object.
    pub fn put_object_done(&self, inserted: Result<ElementInfo, FSError>) -> (answer: Result<
        PutObjectOutput,
        BucketStorageError,
    >)
        ensures
            match inserted {
                Ok(_) => answer matches Ok(output) && output@ == object_put(),
                Err(error) => answer == Err::<PutObjectOutput, BucketStorageError>(
                    BucketStorageError::of(error),
                ),
            },
    {
        match inserted {
            Ok(_) => {
                let mut output = PutObjectOutput::default();
                output.e_tag = Some(String::from_str("unimplemented"));
                Ok(output)
            },
            Err(error) => Err(BucketStorageError::from(error)),
        }
    }

    /// The element that the engine is to delete.
    pub fn delete_object(&self, request: DeleteObjectRequest) -> (asked: ElementName)
        ensures
            asked@ == (request@.bucket, request@.key),
    {
        ElementName { bucket: request.bucket, key: request.key }
    }

    /// The answer to deleting an object. Whatever the engine failed with,
    /// the domain calls it `Unknown`.
    pub fn delete_object_done(&self, deleted: Result<(), FSError>) -> (answer: Result<
        DeleteObjectOutput,
        BucketStorageError,
    >)
        ensures
            match deleted {
                Ok(_) => answer matches Ok(output) && output@ == DeleteObjectOutputView::empty(),
                Err(_) => answer == Err::<DeleteObjectOutput, BucketStorageError>(
                    BucketStorageError::Unknown,
                ),
            },
    {
        match deleted {
            Ok(_) => Ok(DeleteObjectOutput::default()),
            Err(_) => Err(BucketStorageError::Unknown),
        }
    }

    /// The name of the bucket that the engine is to list. Where to start and
    /// how many to give is asked for in vain: the whole bucket is listed.
    pub fn list_object_v2(&self, request: ListObjectsV2Request) -> (name: String)
        ensures
            name@ == request@.bucket,
    {
        request.bucket
    }

    /// The answer to listing a bucket. A bucket that could not be listed is
    /// an `Unknown` failure; an element that could not be read is passed over.
    pub fn list_object_v2_done(
        &self,
        listed: Result<Vec<Result<ElementInfo, FSError>>, FSError>,
    ) -> (answer: Result<ListObjectsV2Output, BucketStorageError>)
        ensures
            match listed {
                Ok(read) => answer matches Ok(output) && output@ == bucket_listed(read@),
                Err(_) => answer == Err::<ListObjectsV2Output, BucketStorageError>(
                    BucketStorageError::Unknown,
                ),
            },
    {
        let read = match listed {
            Ok(read) => read,
            Err(_) => {
                return Err(BucketStorageError::Unknown);
            },
        };
        let mut contents: Vec<Object> = Vec::new();
        let mut i: usize = 0;
        assert(read@.take(0) =~= Seq::empty());
        assert(objects(contents@) =~= Seq::empty());
        while i < read.len()
            invariant
                i <= read@.len(),
                objects(contents@) == listed_objects(read@.take(i as int)),
            decreases read@.len() - i,
        {
            let ghost before = contents@;
            proof {
                let longer = read@.take(i + 1);
                assert(longer.drop_last() =~= read@.take(i as int));
                assert(longer.last() == read@[i as int]);
            }
            match &read[i] {
                Ok(info) => {
                    let object = Object {
                        e_tag: Some(info.checksum.clone()),
                        key: Some(info.name.clone()),
                        last_modified: info.last_modified.to_rfc3339(),
                        owner: None,
                        size: Some(
                            #[verifier::truncate]
                            (info.size as i64),
                        ),
                        storage_class: None,
                    };
                    assert(object@ == listed_object(info@));
                    contents.push(object);
                    assert(objects(contents@) =~= objects(before).push(object@));
                },
                Err(_) => {},
            }
            i = i + 1;
        }
        assert(read@.take(i as int) =~= read@);
        let mut output = ListObjectsV2Output::default();
        output.contents = Some(contents);
        Ok(output)
    }

    /// The element that the engine is to look for.
    pub fn get_object(&self, request: GetObjectRequest) -> (asked: ElementName)
        ensures
            asked@ == (request@.bucket, request@.key),
    {
        ElementName { bucket: request.bucket, key: request.key }
    }

    /// The answer to getting an object, from the metadata that the engine
    /// found: the size, the checksum as the tag, the time of the last change
    /// and the user metadata. An object without metadata is `NoKey`.
    pub fn get_object_done(&self, found: Result<Option<ElementInfo>, FSError>) -> (answer: Result<
        GetObjectOutput,
        BucketStorageError,
    >)
        ensures
            match found {
                Ok(Some(info)) => answer matches Ok(output) && output@ == object_got(info@),
                Ok(None) => answer == Err::<GetObjectOutput, BucketStorageError>(
                    BucketStorageError::NoKey,
                ),
                Err(error) => answer == Err::<GetObjectOutput, BucketStorageError>(
                    BucketStorageError::of(error),
                ),
            },
    {
        match found {
            Ok(Some(info)) => {
                let mut output = GetObjectOutput::default();
                output.last_modified = info.last_modified.to_rfc3339();
                output.content_length = Some(
                    #[verifier::truncate]
                    (info.size as i64),
                );
                output.e_tag = Some(info.checksum);
                output.metadata = Some(info.metadatas);
                Ok(output)
            },
            Ok(None) => Err(BucketStorageError::NoKey),
            Err(error) => Err(BucketStorageError::from(error)),
        }
    }
}

} // verus!
