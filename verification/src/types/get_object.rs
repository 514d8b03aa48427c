//! Getting an object.

use crate::storage::info::{meta_pairs, MetaEntry};
use crate::text::opt_text;
use vstd::prelude::*;

verus! {

/// What a `GetObjectRequest` holds.
pub struct GetObjectRequestView {
    pub bucket: Seq<char>,
    pub expected_bucket_owner: Option<Seq<char>>,
    pub if_match: Option<Seq<char>>,
    pub if_modified_since: Option<Seq<char>>,
    pub if_none_match: Option<Seq<char>>,
    pub if_unmodified_since: Option<Seq<char>>,
    pub key: Seq<char>,
    pub part_number: Option<i64>,
    pub range: Option<Seq<char>>,
    pub request_payer: Option<Seq<char>>,
    pub response_cache_control: Option<Seq<char>>,
    pub response_content_disposition: Option<Seq<char>>,
    pub response_content_encoding: Option<Seq<char>>,
    pub response_content_language: Option<Seq<char>>,
    pub response_content_type: Option<Seq<char>>,
    pub response_expires: Option<Seq<char>>,
    pub sse_customer_algorithm: Option<Seq<char>>,
    pub sse_customer_key: Option<Seq<char>>,
    pub sse_customer_key_md5: Option<Seq<char>>,
    pub version_id: Option<Seq<char>>,
}

impl GetObjectRequestView {
    /// The value with every field empty.
    pub open spec fn empty() -> GetObjectRequestView {
        GetObjectRequestView {
            bucket: Seq::empty(),
            expected_bucket_owner: None,
            if_match: None,
            if_modified_since: None,
            if_none_match: None,
            if_unmodified_since: None,
            key: Seq::empty(),
            part_number: None,
            range: None,
            request_payer: None,
            response_cache_control: None,
            response_content_disposition: None,
            response_content_encoding: None,
            response_content_language: None,
            response_content_type: None,
            response_expires: None,
            sse_customer_algorithm: None,
            sse_customer_key: None,
            sse_customer_key_md5: None,
            version_id: None,
        }
    }
}

/// A request to get an object.
#[derive(Debug)]
pub struct GetObjectRequest {
    pub bucket: String,
    pub expected_bucket_owner: Option<String>,
    pub if_match: Option<String>,
    pub if_modified_since: Option<String>,
    pub if_none_match: Option<String>,
    pub if_unmodified_since: Option<String>,
    pub key: String,
    pub part_number: Option<i64>,
    pub range: Option<String>,
    pub request_payer: Option<String>,
    pub response_cache_control: Option<String>,
    pub response_content_disposition: Option<String>,
    pub response_content_encoding: Option<String>,
    pub response_content_language: Option<String>,
    pub response_content_type: Option<String>,
    pub response_expires: Option<String>,
    pub sse_customer_algorithm: Option<String>,
    pub sse_customer_key: Option<String>,
    pub sse_customer_key_md5: Option<String>,
    pub version_id: Option<String>,
}

impl View for GetObjectRequest {
    type V = GetObjectRequestView;

    open spec fn view(&self) -> GetObjectRequestView {
        GetObjectRequestView {
            bucket: self.bucket@,
            expected_bucket_owner: opt_text(self.expected_bucket_owner),
            if_match: opt_text(self.if_match),
            if_modified_since: opt_text(self.if_modified_since),
            if_none_match: opt_text(self.if_none_match),
            if_unmodified_since: opt_text(self.if_unmodified_since),
            key: self.key@,
            part_number: self.part_number,
            range: opt_text(self.range),
            request_payer: opt_text(self.request_payer),
            response_cache_control: opt_text(self.response_cache_control),
            response_content_disposition: opt_text(self.response_content_disposition),
            response_content_encoding: opt_text(self.response_content_encoding),
            response_content_language: opt_text(self.response_content_language),
            response_content_type: opt_text(self.response_content_type),
            response_expires: opt_text(self.response_expires),
            sse_customer_algorithm: opt_text(self.sse_customer_algorithm),
            sse_customer_key: opt_text(self.sse_customer_key),
            sse_customer_key_md5: opt_text(self.sse_customer_key_md5),
            version_id: opt_text(self.version_id),
        }
    }
}

impl Default for GetObjectRequest {
    fn default() -> (value: Self)
        ensures
            value@ == GetObjectRequestView::empty(),
    {
        let value = GetObjectRequest {
            bucket: String::new(),
            expected_bucket_owner: None,
            if_match: None,
            if_modified_since: None,
            if_none_match: None,
            if_unmodified_since: None,
            key: String::new(),
            part_number: None,
            range: None,
            request_payer: None,
            response_cache_control: None,
            response_content_disposition: None,
            response_content_encoding: None,
            response_content_language: None,
            response_content_type: None,
            response_expires: None,
            sse_customer_algorithm: None,
            sse_customer_key: None,
            sse_customer_key_md5: None,
            version_id: None,
        };
        value
    }
}

/// The pairs of user metadata that may be missing.
pub open spec fn opt_meta(metadata: Option<Vec<MetaEntry>>) -> Option<
    Seq<(Seq<char>, Seq<char>)>,
> {
    match metadata {
        Some(entries) => Some(meta_pairs(entries@)),
        None => None,
    }
}

/// What a `GetObjectOutput` holds.
pub struct GetObjectOutputView {
    pub accept_ranges: Option<Seq<char>>,
    pub bucket_key_enabled: Option<bool>,
    pub cache_control: Option<Seq<char>>,
    pub content_disposition: Option<Seq<char>>,
    pub content_encoding: Option<Seq<char>>,
    pub content_language: Option<Seq<char>>,
    pub content_length: Option<i64>,
    pub content_range: Option<Seq<char>>,
    pub content_type: Option<Seq<char>>,
    pub delete_marker: Option<bool>,
    pub e_tag: Option<Seq<char>>,
    pub expiration: Option<Seq<char>>,
    pub expires: Option<Seq<char>>,
    pub last_modified: Option<Seq<char>>,
    pub metadata: Option<Seq<(Seq<char>, Seq<char>)>>,
    pub missing_meta: Option<i64>,
    pub object_lock_legal_hold_status: Option<Seq<char>>,
    pub object_lock_mode: Option<Seq<char>>,
    pub object_lock_retain_until_date: Option<Seq<char>>,
    pub parts_count: Option<i64>,
    pub replication_status: Option<Seq<char>>,
    pub request_charged: Option<Seq<char>>,
    pub restore: Option<Seq<char>>,
    pub sse_customer_algorithm: Option<Seq<char>>,
    pub sse_customer_key_md5: Option<Seq<char>>,
    pub ssekms_key_id: Option<Seq<char>>,
    pub server_side_encryption: Option<Seq<char>>,
    pub storage_class: Option<Seq<char>>,
    pub tag_count: Option<i64>,
    pub version_id: Option<Seq<char>>,
    pub website_redirect_location: Option<Seq<char>>,
}

impl GetObjectOutputView {
    /// The value with every field empty.
    pub open spec fn empty() -> GetObjectOutputView {
        GetObjectOutputView {
            accept_ranges: None,
            bucket_key_enabled: None,
            cache_control: None,
            content_disposition: None,
            content_encoding: None,
            content_language: None,
            content_length: None,
            content_range: None,
            content_type: None,
            delete_marker: None,
            e_tag: None,
            expiration: None,
            expires: None,
            last_modified: None,
            metadata: None,
            missing_meta: None,
            object_lock_legal_hold_status: None,
            object_lock_mode: None,
            object_lock_retain_until_date: None,
            parts_count: None,
            replication_status: None,
            request_charged: None,
            restore: None,
            sse_customer_algorithm: None,
            sse_customer_key_md5: None,
            ssekms_key_id: None,
            server_side_encryption: None,
            storage_class: None,
            tag_count: None,
            version_id: None,
            website_redirect_location: None,
        }
    }
}

/// What getting an object answers with, beside the content itself, which is
/// handed on as it is read.
#[derive(Debug)]
pub struct GetObjectOutput {
    pub accept_ranges: Option<String>,
    pub bucket_key_enabled: Option<bool>,
    pub cache_control: Option<String>,
    pub content_disposition: Option<String>,
    pub content_encoding: Option<String>,
    pub content_language: Option<String>,
    /// The size of the content in bytes.
    pub content_length: Option<i64>,
    pub content_range: Option<String>,
    pub content_type: Option<String>,
    pub delete_marker: Option<bool>,
    pub e_tag: Option<String>,
    pub expiration: Option<String>,
    pub expires: Option<String>,
    pub last_modified: Option<String>,
    /// The user metadata kept with the object.
    pub metadata: Option<Vec<MetaEntry>>,
    pub missing_meta: Option<i64>,
    pub object_lock_legal_hold_status: Option<String>,
    pub object_lock_mode: Option<String>,
    pub object_lock_retain_until_date: Option<String>,
    pub parts_count: Option<i64>,
    pub replication_status: Option<String>,
    pub request_charged: Option<String>,
    pub restore: Option<String>,
    pub sse_customer_algorithm: Option<String>,
    pub sse_customer_key_md5: Option<String>,
    pub ssekms_key_id: Option<String>,
    pub server_side_encryption: Option<String>,
    pub storage_class: Option<String>,
    pub tag_count: Option<i64>,
    pub version_id: Option<String>,
    pub website_redirect_location: Option<String>,
}

impl View for GetObjectOutput {
    type V = GetObjectOutputView;

    open spec fn view(&self) -> GetObjectOutputView {
        GetObjectOutputView {
            accept_ranges: opt_text(self.accept_ranges),
            bucket_key_enabled: self.bucket_key_enabled,
            cache_control: opt_text(self.cache_control),
            content_disposition: opt_text(self.content_disposition),
            content_encoding: opt_text(self.content_encoding),
            content_language: opt_text(self.content_language),
            content_length: self.content_length,
            content_range: opt_text(self.content_range),
            content_type: opt_text(self.content_type),
            delete_marker: self.delete_marker,
            e_tag: opt_text(self.e_tag),
            expiration: opt_text(self.expiration),
            expires: opt_text(self.expires),
            last_modified: opt_text(self.last_modified),
            metadata: opt_meta(self.metadata),
            missing_meta: self.missing_meta,
            object_lock_legal_hold_status: opt_text(self.object_lock_legal_hold_status),
            object_lock_mode: opt_text(self.object_lock_mode),
            object_lock_retain_until_date: opt_text(self.object_lock_retain_until_date),
            parts_count: self.parts_count,
            replication_status: opt_text(self.replication_status),
            request_charged: opt_text(self.request_charged),
            restore: opt_text(self.restore),
            sse_customer_algorithm: opt_text(self.sse_customer_algorithm),
            sse_customer_key_md5: opt_text(self.sse_customer_key_md5),
            ssekms_key_id: opt_text(self.ssekms_key_id),
            server_side_encryption: opt_text(self.server_side_encryption),
            storage_class: opt_text(self.storage_class),
            tag_count: self.tag_count,
            version_id: opt_text(self.version_id),
            website_redirect_location: opt_text(self.website_redirect_location),
        }
    }
}

impl Default for GetObjectOutput {
    fn default() -> (value: Self)
        ensures
            value@ == GetObjectOutputView::empty(),
    {
        let value = GetObjectOutput {
            accept_ranges: None,
            bucket_key_enabled: None,
            cache_control: None,
            content_disposition: None,
            content_encoding: None,
            content_language: None,
            content_length: None,
            content_range: None,
            content_type: None,
            delete_marker: None,
            e_tag: None,
            expiration: None,
            expires: None,
            last_modified: None,
            metadata: None,
            missing_meta: None,
            object_lock_legal_hold_status: None,
            object_lock_mode: None,
            object_lock_retain_until_date: None,
            parts_count: None,
            replication_status: None,
            request_charged: None,
            restore: None,
            sse_customer_algorithm: None,
            sse_customer_key_md5: None,
            ssekms_key_id: None,
            server_side_encryption: None,
            storage_class: None,
            tag_count: None,
            version_id: None,
            website_redirect_location: None,
        };
        value
    }
}

} // verus!
