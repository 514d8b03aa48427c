//! Listing the objects of a bucket, in the first form of the protocol.

use crate::text::opt_text;
use crate::types::common::{opt_prefixes, CommonPrefix, CommonPrefixView};
use crate::types::object::{opt_objects, Object, ObjectView};
use vstd::prelude::*;

verus! {

/// What a `ListObjectsRequest` holds.
pub struct ListObjectsRequestView {
    pub bucket: Seq<char>,
    pub delimiter: Option<Seq<char>>,
    pub encoding_type: Option<Seq<char>>,
    pub expected_bucket_owner: Option<Seq<char>>,
    pub marker: Option<Seq<char>>,
    pub max_keys: Option<i64>,
    pub prefix: Option<Seq<char>>,
    pub request_payer: Option<Seq<char>>,
}

impl ListObjectsRequestView {
    /// The value with every field empty.
    pub open spec fn empty() -> ListObjectsRequestView {
        ListObjectsRequestView {
            bucket: Seq::empty(),
            delimiter: None,
            encoding_type: None,
            expected_bucket_owner: None,
            marker: None,
            max_keys: None,
            prefix: None,
            request_payer: None,
        }
    }
}

/// A request to list the objects of a bucket.
#[derive(Debug)]
pub struct ListObjectsRequest {
    pub bucket: String,
    pub delimiter: Option<String>,
    pub encoding_type: Option<String>,
    pub expected_bucket_owner: Option<String>,
    pub marker: Option<String>,
    pub max_keys: Option<i64>,
    pub prefix: Option<String>,
    pub request_payer: Option<String>,
}

impl View for ListObjectsRequest {
    type V = ListObjectsRequestView;

    open spec fn view(&self) -> ListObjectsRequestView {
        ListObjectsRequestView {
            bucket: self.bucket@,
            delimiter: opt_text(self.delimiter),
            encoding_type: opt_text(self.encoding_type),
            expected_bucket_owner: opt_text(self.expected_bucket_owner),
            marker: opt_text(self.marker),
            max_keys: self.max_keys,
            prefix: opt_text(self.prefix),
            request_payer: opt_text(self.request_payer),
        }
    }
}

impl Default for ListObjectsRequest {
    fn default() -> (value: Self)
        ensures
            value@ == ListObjectsRequestView::empty(),
    {
        let value = ListObjectsRequest {
            bucket: String::new(),
            delimiter: None,
            encoding_type: None,
            expected_bucket_owner: None,
            marker: None,
            max_keys: None,
            prefix: None,
            request_payer: None,
        };
        value
    }
}
/// What a `ListObjectsOutput` holds.
pub struct ListObjectsOutputView {
    pub common_prefixes: Option<Seq<CommonPrefixView>>,
    pub contents: Option<Seq<ObjectView>>,
    pub delimiter: Option<Seq<char>>,
    pub encoding_type: Option<Seq<char>>,
    pub is_truncated: Option<bool>,
    pub marker: Option<Seq<char>>,
    pub max_keys: Option<i64>,
    pub name: Option<Seq<char>>,
    pub next_marker: Option<Seq<char>>,
    pub prefix: Option<Seq<char>>,
}

impl ListObjectsOutputView {
    /// The value with every field empty.
    pub open spec fn empty() -> ListObjectsOutputView {
        ListObjectsOutputView {
            common_prefixes: None,
            contents: None,
            delimiter: None,
            encoding_type: None,
            is_truncated: None,
            marker: None,
            max_keys: None,
            name: None,
            next_marker: None,
            prefix: None,
        }
    }
}

/// What listing the objects of a bucket answers with.
#[derive(Debug)]
pub struct ListObjectsOutput {
    pub common_prefixes: Option<Vec<CommonPrefix>>,
    pub contents: Option<Vec<Object>>,
    pub delimiter: Option<String>,
    pub encoding_type: Option<String>,
    pub is_truncated: Option<bool>,
    pub marker: Option<String>,
    pub max_keys: Option<i64>,
    pub name: Option<String>,
    pub next_marker: Option<String>,
    pub prefix: Option<String>,
}

impl View for ListObjectsOutput {
    type V = ListObjectsOutputView;

    open spec fn view(&self) -> ListObjectsOutputView {
        ListObjectsOutputView {
            common_prefixes: opt_prefixes(self.common_prefixes),
            contents: opt_objects(self.contents),
            delimiter: opt_text(self.delimiter),
            encoding_type: opt_text(self.encoding_type),
            is_truncated: self.is_truncated,
            marker: opt_text(self.marker),
            max_keys: self.max_keys,
            name: opt_text(self.name),
            next_marker: opt_text(self.next_marker),
            prefix: opt_text(self.prefix),
        }
    }
}

impl Default for ListObjectsOutput {
    fn default() -> (value: Self)
        ensures
            value@ == ListObjectsOutputView::empty(),
    {
        let value = ListObjectsOutput {
            common_prefixes: None,
            contents: None,
            delimiter: None,
            encoding_type: None,
            is_truncated: None,
            marker: None,
            max_keys: None,
            name: None,
            next_marker: None,
            prefix: None,
        };
        value
    }
}

} // verus!
