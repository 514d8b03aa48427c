//! Deleting an object.

use crate::text::opt_text;
use vstd::prelude::*;

verus! {

/// What a `DeleteObjectRequest` holds.
pub struct DeleteObjectRequestView {
    pub bucket: Seq<char>,
    pub bypass_governance_retention: Option<bool>,
    pub expected_bucket_owner: Option<Seq<char>>,
    pub key: Seq<char>,
    pub mfa: Option<Seq<char>>,
    pub request_payer: Option<Seq<char>>,
    pub version_id: Option<Seq<char>>,
}

impl DeleteObjectRequestView {
    /// The value with every field empty.
    pub open spec fn empty() -> DeleteObjectRequestView {
        DeleteObjectRequestView {
            bucket: Seq::empty(),
            bypass_governance_retention: None,
            expected_bucket_owner: None,
            key: Seq::empty(),
            mfa: None,
            request_payer: None,
            version_id: None,
        }
    }
}

/// A request to delete an object.
#[derive(Debug)]
pub struct DeleteObjectRequest {
    pub bucket: String,
    pub bypass_governance_retention: Option<bool>,
    pub expected_bucket_owner: Option<String>,
    pub key: String,
    pub mfa: Option<String>,
    pub request_payer: Option<String>,
    pub version_id: Option<String>,
}

impl View for DeleteObjectRequest {
    type V = DeleteObjectRequestView;

    open spec fn view(&self) -> DeleteObjectRequestView {
        DeleteObjectRequestView {
            bucket: self.bucket@,
            bypass_governance_retention: self.bypass_governance_retention,
            expected_bucket_owner: opt_text(self.expected_bucket_owner),
            key: self.key@,
            mfa: opt_text(self.mfa),
            request_payer: opt_text(self.request_payer),
            version_id: opt_text(self.version_id),
        }
    }
}

impl Default for DeleteObjectRequest {
    fn default() -> (value: Self)
        ensures
            value@ == DeleteObjectRequestView::empty(),
    {
        let value = DeleteObjectRequest {
            bucket: String::new(),
            bypass_governance_retention: None,
            expected_bucket_owner: None,
            key: String::new(),
            mfa: None,
            request_payer: None,
            version_id: None,
        };
        value
    }
}
/// What a `DeleteObjectOutput` holds.
pub struct DeleteObjectOutputView {
    pub delete_marker: Option<bool>,
    pub request_charged: Option<Seq<char>>,
    pub version_id: Option<Seq<char>>,
}

impl DeleteObjectOutputView {
    /// The value with every field empty.
    pub open spec fn empty() -> DeleteObjectOutputView {
        DeleteObjectOutputView {
            delete_marker: None,
            request_charged: None,
            version_id: None,
        }
    }
}

/// What deleting an object answers with.
#[derive(Debug)]
pub struct DeleteObjectOutput {
    pub delete_marker: Option<bool>,
    pub request_charged: Option<String>,
    pub version_id: Option<String>,
}

impl View for DeleteObjectOutput {
    type V = DeleteObjectOutputView;

    open spec fn view(&self) -> DeleteObjectOutputView {
        DeleteObjectOutputView {
            delete_marker: self.delete_marker,
            request_charged: opt_text(self.request_charged),
            version_id: opt_text(self.version_id),
        }
    }
}

impl Default for DeleteObjectOutput {
    fn default() -> (value: Self)
        ensures
            value@ == DeleteObjectOutputView::empty(),
    {
        let value = DeleteObjectOutput {
            delete_marker: None,
            request_charged: None,
            version_id: None,
        };
        value
    }
}

} // verus!
