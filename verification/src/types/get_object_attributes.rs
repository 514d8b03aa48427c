//! Getting the attributes of an object.

use crate::text::opt_text;
use vstd::prelude::*;

verus! {

/// The texts of `values`, in order.
pub open spec fn texts(values: Seq<String>) -> Seq<Seq<char>> {
    values.map_values(|s: String| s@)
}

/// What a `GetObjectAttributesRequest` holds.
pub struct GetObjectAttributesRequestView {
    pub max_parts: Option<i64>,
    pub part_number: Option<i64>,
    pub sse_customer_algorithm: Option<Seq<char>>,
    pub sse_customer_key: Option<Seq<char>>,
    pub sse_customer_key_md5: Option<Seq<char>>,
    pub request_payer: Option<Seq<char>>,
    pub expected_bucket_owner: Option<Seq<char>>,
    pub expected_attributes: Seq<Seq<char>>,
}

impl GetObjectAttributesRequestView {
    /// The value with every field empty.
    pub open spec fn empty() -> GetObjectAttributesRequestView {
        GetObjectAttributesRequestView {
            max_parts: None,
            part_number: None,
            sse_customer_algorithm: None,
            sse_customer_key: None,
            sse_customer_key_md5: None,
            request_payer: None,
            expected_bucket_owner: None,
            expected_attributes: Seq::empty(),
        }
    }
}

/// A request for the attributes of an object.
#[derive(Debug)]
pub struct GetObjectAttributesRequest {
    pub max_parts: Option<i64>,
    pub part_number: Option<i64>,
    pub sse_customer_algorithm: Option<String>,
    pub sse_customer_key: Option<String>,
    pub sse_customer_key_md5: Option<String>,
    pub request_payer: Option<String>,
    pub expected_bucket_owner: Option<String>,
    /// The attributes asked for: `ETag`, `Checksum`, `ObjectParts`,
    /// `StorageClass` or `ObjectSize`.
    pub expected_attributes: Vec<String>,
}

impl View for GetObjectAttributesRequest {
    type V = GetObjectAttributesRequestView;

    open spec fn view(&self) -> GetObjectAttributesRequestView {
        GetObjectAttributesRequestView {
            max_parts: self.max_parts,
            part_number: self.part_number,
            sse_customer_algorithm: opt_text(self.sse_customer_algorithm),
            sse_customer_key: opt_text(self.sse_customer_key),
            sse_customer_key_md5: opt_text(self.sse_customer_key_md5),
            request_payer: opt_text(self.request_payer),
            expected_bucket_owner: opt_text(self.expected_bucket_owner),
            expected_attributes: texts(self.expected_attributes@),
        }
    }
}

impl Default for GetObjectAttributesRequest {
    fn default() -> (value: Self)
        ensures
            value@ == GetObjectAttributesRequestView::empty(),
    {
        let value = GetObjectAttributesRequest {
            max_parts: None,
            part_number: None,
            sse_customer_algorithm: None,
            sse_customer_key: None,
            sse_customer_key_md5: None,
            request_payer: None,
            expected_bucket_owner: None,
            expected_attributes: Vec::new(),
        };
        assert(texts(value.expected_attributes@) =~= Seq::empty());
        value
    }
}
/// What a `GetObjectAttributesOutput` holds.
pub struct GetObjectAttributesOutputView {
    pub e_tag: Option<Seq<char>>,
}

impl GetObjectAttributesOutputView {
    /// The value with every field empty.
    pub open spec fn empty() -> GetObjectAttributesOutputView {
        GetObjectAttributesOutputView {
            e_tag: None,
        }
    }
}

/// What asking for the attributes of an object answers with.
#[derive(Debug)]
pub struct GetObjectAttributesOutput {
    pub e_tag: Option<String>,
}

impl View for GetObjectAttributesOutput {
    type V = GetObjectAttributesOutputView;

    open spec fn view(&self) -> GetObjectAttributesOutputView {
        GetObjectAttributesOutputView {
            e_tag: opt_text(self.e_tag),
        }
    }
}

impl Default for GetObjectAttributesOutput {
    fn default() -> (value: Self)
        ensures
            value@ == GetObjectAttributesOutputView::empty(),
    {
        let value = GetObjectAttributesOutput {
            e_tag: None,
        };
        value
    }
}

} // verus!
