//! Listing the objects of a bucket, in the second form of the protocol.

use crate::response::{opt_flag, opt_flag_text};
use crate::text::{opt_integer_text, opt_integer_to_text, opt_text};
use crate::types::common::{opt_prefixes, CommonPrefix, CommonPrefixView};
use crate::types::object::{objects, opt_objects, Object, ObjectView};
use crate::types::owner::OwnerView;
use crate::xml::{element, push_element};
use vstd::prelude::*;
use vstd::string::*;

verus! {

/// What a `ListObjectsV2Request` holds.
pub struct ListObjectsV2RequestView {
    pub bucket: Seq<char>,
    pub continuation_token: Option<Seq<char>>,
    pub delimiter: Option<Seq<char>>,
    pub encoding_type: Option<Seq<char>>,
    pub expected_bucket_owner: Option<Seq<char>>,
    pub fetch_owner: Option<bool>,
    pub max_keys: Option<i64>,
    pub prefix: Option<Seq<char>>,
    pub request_payer: Option<Seq<char>>,
    pub start_after: Option<Seq<char>>,
}

impl ListObjectsV2RequestView {
    /// The value with every field empty.
    pub open spec fn empty() -> ListObjectsV2RequestView {
        ListObjectsV2RequestView {
            bucket: Seq::empty(),
            continuation_token: None,
            delimiter: None,
            encoding_type: None,
            expected_bucket_owner: None,
            fetch_owner: None,
            max_keys: None,
            prefix: None,
            request_payer: None,
            start_after: None,
        }
    }
}

/// A request to list the objects of a bucket.
#[derive(Debug)]
pub struct ListObjectsV2Request {
    pub bucket: String,
    pub continuation_token: Option<String>,
    pub delimiter: Option<String>,
    pub encoding_type: Option<String>,
    pub expected_bucket_owner: Option<String>,
    pub fetch_owner: Option<bool>,
    pub max_keys: Option<i64>,
    pub prefix: Option<String>,
    pub request_payer: Option<String>,
    pub start_after: Option<String>,
}

impl View for ListObjectsV2Request {
    type V = ListObjectsV2RequestView;

    open spec fn view(&self) -> ListObjectsV2RequestView {
        ListObjectsV2RequestView {
            bucket: self.bucket@,
            continuation_token: opt_text(self.continuation_token),
            delimiter: opt_text(self.delimiter),
            encoding_type: opt_text(self.encoding_type),
            expected_bucket_owner: opt_text(self.expected_bucket_owner),
            fetch_owner: self.fetch_owner,
            max_keys: self.max_keys,
            prefix: opt_text(self.prefix),
            request_payer: opt_text(self.request_payer),
            start_after: opt_text(self.start_after),
        }
    }
}

impl Default for ListObjectsV2Request {
    fn default() -> (value: Self)
        ensures
            value@ == ListObjectsV2RequestView::empty(),
    {
        let value = ListObjectsV2Request {
            bucket: String::new(),
            continuation_token: None,
            delimiter: None,
            encoding_type: None,
            expected_bucket_owner: None,
            fetch_owner: None,
            max_keys: None,
            prefix: None,
            request_payer: None,
            start_after: None,
        };
        value
    }
}
/// What a `ListObjectsV2Output` holds.
pub struct ListObjectsV2OutputView {
    pub common_prefixes: Option<Seq<CommonPrefixView>>,
    pub contents: Option<Seq<ObjectView>>,
    pub continuation_token: Option<Seq<char>>,
    pub delimiter: Option<Seq<char>>,
    pub encoding_type: Option<Seq<char>>,
    pub is_truncated: Option<bool>,
    pub key_count: Option<i64>,
    pub max_keys: Option<i64>,
    pub name: Option<Seq<char>>,
    pub next_continuation_token: Option<Seq<char>>,
    pub prefix: Option<Seq<char>>,
    pub start_after: Option<Seq<char>>,
}

impl ListObjectsV2OutputView {
    /// The value with every field empty.
    pub open spec fn empty() -> ListObjectsV2OutputView {
        ListObjectsV2OutputView {
            common_prefixes: None,
            contents: None,
            continuation_token: None,
            delimiter: None,
            encoding_type: None,
            is_truncated: None,
            key_count: None,
            max_keys: None,
            name: None,
            next_continuation_token: None,
            prefix: None,
            start_after: None,
        }
    }
}

/// What listing the objects of a bucket answers with.
#[derive(Debug)]
pub struct ListObjectsV2Output {
    pub common_prefixes: Option<Vec<CommonPrefix>>,
    pub contents: Option<Vec<Object>>,
    pub continuation_token: Option<String>,
    pub delimiter: Option<String>,
    pub encoding_type: Option<String>,
    pub is_truncated: Option<bool>,
    pub key_count: Option<i64>,
    pub max_keys: Option<i64>,
    pub name: Option<String>,
    pub next_continuation_token: Option<String>,
    pub prefix: Option<String>,
    pub start_after: Option<String>,
}

impl View for ListObjectsV2Output {
    type V = ListObjectsV2OutputView;

    open spec fn view(&self) -> ListObjectsV2OutputView {
        ListObjectsV2OutputView {
            common_prefixes: opt_prefixes(self.common_prefixes),
            contents: opt_objects(self.contents),
            continuation_token: opt_text(self.continuation_token),
            delimiter: opt_text(self.delimiter),
            encoding_type: opt_text(self.encoding_type),
            is_truncated: self.is_truncated,
            key_count: self.key_count,
            max_keys: self.max_keys,
            name: opt_text(self.name),
            next_continuation_token: opt_text(self.next_continuation_token),
            prefix: opt_text(self.prefix),
            start_after: opt_text(self.start_after),
        }
    }
}

impl Default for ListObjectsV2Output {
    fn default() -> (value: Self)
        ensures
            value@ == ListObjectsV2OutputView::empty(),
    {
        let value = ListObjectsV2Output {
            common_prefixes: None,
            contents: None,
            continuation_token: None,
            delimiter: None,
            encoding_type: None,
            is_truncated: None,
            key_count: None,
            max_keys: None,
            name: None,
            next_continuation_token: None,
            prefix: None,
            start_after: None,
        };
        value
    }
}

impl ListObjectsV2OutputView {
    /// The listing as a `ListBucketResult` element. Its fields come in the
    /// order of the struct, each under its name in the protocol; a field
    /// without a value is an empty element, and each object of the contents
    /// is a `Contents` element of its own.
    pub open spec fn xml(self) -> Seq<char> {
        "<ListBucketResult>"@ + prefixes_xml(self.common_prefixes) + contents_xml(self.contents)
            + opt_element("ContinuationToken"@, self.continuation_token) + opt_element(
            "Delimiter"@,
            self.delimiter,
        ) + opt_element("EncodingType"@, self.encoding_type) + opt_element(
            "IsTruncated"@,
            opt_flag_text(self.is_truncated),
        ) + opt_element("KeyCount"@, opt_integer_text(self.key_count)) + opt_element(
            "MaxKeys"@,
            opt_integer_text(self.max_keys),
        ) + opt_element("Name"@, self.name) + opt_element(
            "NextContinuationToken"@,
            self.next_continuation_token,
        ) + opt_element("Prefix"@, self.prefix) + opt_element("StartAfter"@, self.start_after)
            + "</ListBucketResult>"@
    }
}

/// The element `name` with `text` in it, or empty where there is none.
pub open spec fn opt_element(name: Seq<char>, text: Option<Seq<char>>) -> Seq<char> {
    match text {
        Some(text) => element(name, text),
        None => element(name, Seq::empty()),
    }
}

/// One object of a listing as the inside of a `Contents` element.
pub open spec fn object_xml(object: ObjectView) -> Seq<char> {
    opt_element("ETag"@, object.e_tag) + opt_element("Key"@, object.key) + opt_element(
        "LastModified"@,
        object.last_modified,
    ) + owner_xml(object.owner) + opt_element("Size"@, opt_integer_text(object.size))
        + opt_element("StorageClass"@, object.storage_class)
}

/// The owner of an object as an `Owner` element.
pub open spec fn owner_xml(owner: Option<OwnerView>) -> Seq<char> {
    match owner {
        Some(owner) => "<Owner>"@ + opt_element("DisplayName"@, owner.display_name)
            + opt_element("ID"@, owner.id) + "</Owner>"@,
        None => "<Owner/>"@,
    }
}

/// The objects of a listing, each as a `Contents` element.
pub open spec fn objects_xml(objects: Seq<ObjectView>) -> Seq<char>
    decreases objects.len(),
{
    if objects.len() == 0 {
        Seq::empty()
    } else {
        objects_xml(objects.drop_last()) + "<Contents>"@ + object_xml(objects.last())
            + "</Contents>"@
    }
}

/// The contents of a listing: an empty element where there are none to tell
/// of, and nothing at all for an empty listing.
pub open spec fn contents_xml(contents: Option<Seq<ObjectView>>) -> Seq<char> {
    match contents {
        Some(objects) => objects_xml(objects),
        None => "<Contents/>"@,
    }
}

/// The common prefixes of a listing, each as a `CommonPrefixes` element.
pub open spec fn prefix_list_xml(prefixes: Seq<CommonPrefixView>) -> Seq<char>
    decreases prefixes.len(),
{
    if prefixes.len() == 0 {
        Seq::empty()
    } else {
        prefix_list_xml(prefixes.drop_last()) + "<CommonPrefixes>"@ + opt_element(
            "Prefix"@,
            prefixes.last().prefix,
        ) + "</CommonPrefixes>"@
    }
}

/// The common prefixes of a listing, or an empty element where there are
/// none to tell of.
pub open spec fn prefixes_xml(prefixes: Option<Seq<CommonPrefixView>>) -> Seq<char> {
    match prefixes {
        Some(prefixes) => prefix_list_xml(prefixes),
        None => "<CommonPrefixes/>"@,
    }
}

fn push_opt_element(out: &mut String, name: &str, text: &Option<String>)
    ensures
        final(out)@ == old(out)@ + opt_element(name@, opt_text(*text)),
{
    match text {
        Some(text) => push_element(out, name, text.as_str()),
        None => {
            proof {
                reveal_strlit("");
                assert(""@ =~= Seq::<char>::empty());
            }
            push_element(out, name, "")
        },
    }
}

fn push_object(out: &mut String, object: &Object)
    ensures
        final(out)@ == old(out)@ + "<Contents>"@ + object_xml(object@) + "</Contents>"@,
{
    out.append("<Contents>");
    push_opt_element(out, "ETag", &object.e_tag);
    push_opt_element(out, "Key", &object.key);
    push_opt_element(out, "LastModified", &object.last_modified);
    match &object.owner {
        Some(owner) => {
            out.append("<Owner>");
            push_opt_element(out, "DisplayName", &owner.display_name);
            push_opt_element(out, "ID", &owner.id);
            out.append("</Owner>");
        },
        None => {
            out.append("<Owner/>");
        },
    }
    assert(out@ =~= old(out)@ + "<Contents>"@ + opt_element("ETag"@, object@.e_tag)
        + opt_element("Key"@, object@.key) + opt_element("LastModified"@, object@.last_modified)
        + owner_xml(object@.owner));
    push_opt_element(out, "Size", &opt_integer_to_text(object.size));
    push_opt_element(out, "StorageClass", &object.storage_class);
    out.append("</Contents>");
    assert(out@ =~= old(out)@ + "<Contents>"@ + object_xml(object@) + "</Contents>"@);
}

impl ListObjectsV2Output {
    /// The listing as a `ListBucketResult` element.
    pub fn to_xml(&self) -> (xml: String)
        ensures
            xml@ == self@.xml(),
    {
        let mut xml = String::from_str("<ListBucketResult>");
        match &self.common_prefixes {
            Some(prefixes) => {
                let ghost start = xml@;
                let mut i: usize = 0;
                assert(prefixes@.map_values(|p: CommonPrefix| p@).take(0) =~= Seq::empty());
                while i < prefixes.len()
                    invariant
                        i <= prefixes@.len(),
                        xml@ == start + prefix_list_xml(
                            prefixes@.map_values(|p: CommonPrefix| p@).take(i as int),
                        ),
                    decreases prefixes@.len() - i,
                {
                    let ghost before = xml@;
                    proof {
                        let all = prefixes@.map_values(|p: CommonPrefix| p@);
                        assert(all.take(i + 1).drop_last() =~= all.take(i as int));
                        assert(all.take(i + 1).last() == prefixes@[i as int]@);
                    }
                    xml.append("<CommonPrefixes>");
                    push_opt_element(&mut xml, "Prefix", &prefixes[i].prefix);
                    xml.append("</CommonPrefixes>");
                    assert(xml@ =~= before + "<CommonPrefixes>"@ + opt_element(
                        "Prefix"@,
                        prefixes@[i as int]@.prefix,
                    ) + "</CommonPrefixes>"@);
                    i = i + 1;
                }
                assert(prefixes@.map_values(|p: CommonPrefix| p@).take(i as int)
                    =~= prefixes@.map_values(|p: CommonPrefix| p@));
            },
            None => {
                xml.append("<CommonPrefixes/>");
            },
        }
        let ghost after_prefixes = xml@;
        assert(after_prefixes == "<ListBucketResult>"@ + prefixes_xml(self@.common_prefixes));
        match &self.contents {
            Some(found) => {
                let mut i: usize = 0;
                assert(objects(found@).take(0) =~= Seq::empty());
                while i < found.len()
                    invariant
                        i <= found@.len(),
                        xml@ == after_prefixes + objects_xml(objects(found@).take(i as int)),
                    decreases found@.len() - i,
                {
                    let ghost before = xml@;
                    proof {
                        let all = objects(found@);
                        assert(all.take(i + 1).drop_last() =~= all.take(i as int));
                        assert(all.take(i + 1).last() == found@[i as int]@);
                    }
                    push_object(&mut xml, &found[i]);
                    assert(xml@ =~= after_prefixes + (objects_xml(objects(found@).take(i as int))
                        + "<Contents>"@ + object_xml(found@[i as int]@) + "</Contents>"@));
                    i = i + 1;
                }
                assert(objects(found@).take(i as int) =~= objects(found@));
            },
            None => {
                xml.append("<Contents/>");
            },
        }
        let ghost after_contents = xml@;
        assert(after_contents == after_prefixes + contents_xml(self@.contents));
        push_opt_element(&mut xml, "ContinuationToken", &self.continuation_token);
        push_opt_element(&mut xml, "Delimiter", &self.delimiter);
        push_opt_element(&mut xml, "EncodingType", &self.encoding_type);
        push_opt_element(&mut xml, "IsTruncated", &opt_flag(self.is_truncated));
        push_opt_element(&mut xml, "KeyCount", &opt_integer_to_text(self.key_count));
        push_opt_element(&mut xml, "MaxKeys", &opt_integer_to_text(self.max_keys));
        push_opt_element(&mut xml, "Name", &self.name);
        push_opt_element(&mut xml, "NextContinuationToken", &self.next_continuation_token);
        push_opt_element(&mut xml, "Prefix", &self.prefix);
        push_opt_element(&mut xml, "StartAfter", &self.start_after);
        xml.append("</ListBucketResult>");
        assert(xml@ =~= self@.xml());
        xml
    }
}

} // verus!
