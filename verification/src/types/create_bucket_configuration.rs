//! Making a bucket.

use crate::text::opt_text;
use vstd::prelude::*;

verus! {

/// The configuration that may come in the body of the request. None of it
/// is looked at.
#[derive(Debug, Clone, Copy, PartialEq, Eq, Structural)]
pub struct CreateBucketConfiguration {}

/// What a `CreateBucketOutput` holds.
pub struct CreateBucketOutputView {
    pub location: Option<Seq<char>>,
}

impl CreateBucketOutputView {
    /// The value with every field empty.
    pub open spec fn empty() -> CreateBucketOutputView {
        CreateBucketOutputView {
            location: None,
        }
    }
}

/// What making a bucket answers with.
#[derive(Debug)]
pub struct CreateBucketOutput {
    /// The path of the bucket.
    pub location: Option<String>,
}

impl View for CreateBucketOutput {
    type V = CreateBucketOutputView;

    open spec fn view(&self) -> CreateBucketOutputView {
        CreateBucketOutputView {
            location: opt_text(self.location),
        }
    }
}

impl Default for CreateBucketOutput {
    fn default() -> (value: Self)
        ensures
            value@ == CreateBucketOutputView::empty(),
    {
        let value = CreateBucketOutput {
            location: None,
        };
        value
    }
}
/// What a `CreateBucketRequest` holds.
pub struct CreateBucketRequestView {
    pub acl: Option<Seq<char>>,
    pub bucket: Seq<char>,
    pub create_bucket_configuration: Option<CreateBucketConfiguration>,
    pub grant_full_control: Option<Seq<char>>,
    pub grant_read: Option<Seq<char>>,
    pub grant_read_acp: Option<Seq<char>>,
    pub grant_write: Option<Seq<char>>,
    pub grant_write_acp: Option<Seq<char>>,
    pub object_lock_enabled_for_bucket: Option<bool>,
}

impl CreateBucketRequestView {
    /// The value with every field empty.
    pub open spec fn empty() -> CreateBucketRequestView {
        CreateBucketRequestView {
            acl: None,
            bucket: Seq::empty(),
            create_bucket_configuration: None,
            grant_full_control: None,
            grant_read: None,
            grant_read_acp: None,
            grant_write: None,
            grant_write_acp: None,
            object_lock_enabled_for_bucket: None,
        }
    }
}

/// A request to make a bucket.
#[derive(Debug)]
pub struct CreateBucketRequest {
    pub acl: Option<String>,
    /// The name of the bucket to make.
    pub bucket: String,
    pub create_bucket_configuration: Option<CreateBucketConfiguration>,
    pub grant_full_control: Option<String>,
    pub grant_read: Option<String>,
    pub grant_read_acp: Option<String>,
    pub grant_write: Option<String>,
    pub grant_write_acp: Option<String>,
    pub object_lock_enabled_for_bucket: Option<bool>,
}

impl View for CreateBucketRequest {
    type V = CreateBucketRequestView;

    open spec fn view(&self) -> CreateBucketRequestView {
        CreateBucketRequestView {
            acl: opt_text(self.acl),
            bucket: self.bucket@,
            create_bucket_configuration: self.create_bucket_configuration,
            grant_full_control: opt_text(self.grant_full_control),
            grant_read: opt_text(self.grant_read),
            grant_read_acp: opt_text(self.grant_read_acp),
            grant_write: opt_text(self.grant_write),
            grant_write_acp: opt_text(self.grant_write_acp),
            object_lock_enabled_for_bucket: self.object_lock_enabled_for_bucket,
        }
    }
}

impl Default for CreateBucketRequest {
    fn default() -> (value: Self)
        ensures
            value@ == CreateBucketRequestView::empty(),
    {
        let value = CreateBucketRequest {
            acl: None,
            bucket: String::new(),
            create_bucket_configuration: None,
            grant_full_control: None,
            grant_read: None,
            grant_read_acp: None,
            grant_write: None,
            grant_write_acp: None,
            object_lock_enabled_for_bucket: None,
        };
        value
    }
}

} // verus!
