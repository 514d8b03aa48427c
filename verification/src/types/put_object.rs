//! Putting an object.

use crate::storage::info::MetaEntry;
use crate::text::opt_text;
use crate::types::get_object::opt_meta;
use vstd::prelude::*;

verus! {

/// The mark of a request that comes with content. The content itself travels
/// beside the request, piece by piece.
#[derive(Debug, Clone, Copy, PartialEq, Eq, Structural)]
pub struct Body {}

/// What a `PutObjectRequest` holds.
pub struct PutObjectRequestView {
    pub acl: Option<Seq<char>>,
    pub body: bool,
    pub bucket: Seq<char>,
    pub bucket_key_enabled: Option<bool>,
    pub cache_control: Option<Seq<char>>,
    pub content_disposition: Option<Seq<char>>,
    pub content_encoding: Option<Seq<char>>,
    pub content_language: Option<Seq<char>>,
    pub content_length: Option<i64>,
    pub content_md5: Option<Seq<char>>,
    pub content_type: Option<Seq<char>>,
    pub expected_bucket_owner: Option<Seq<char>>,
    pub expires: Option<Seq<char>>,
    pub grant_full_control: Option<Seq<char>>,
    pub grant_read: Option<Seq<char>>,
    pub grant_read_acp: Option<Seq<char>>,
    pub grant_write_acp: Option<Seq<char>>,
    pub key: Seq<char>,
    pub metadata: Option<Seq<(Seq<char>, Seq<char>)>>,
    pub object_lock_legal_hold_status: Option<Seq<char>>,
    pub object_lock_mode: Option<Seq<char>>,
    pub object_lock_retain_until_date: Option<Seq<char>>,
    pub request_payer: Option<Seq<char>>,
    pub sse_customer_algorithm: Option<Seq<char>>,
    pub sse_customer_key: Option<Seq<char>>,
    pub sse_customer_key_md5: Option<Seq<char>>,
    pub ssekms_encryption_context: Option<Seq<char>>,
    pub ssekms_key_id: Option<Seq<char>>,
    pub server_side_encryption: Option<Seq<char>>,
    pub storage_class: Option<Seq<char>>,
    pub tagging: Option<Seq<char>>,
    pub website_redirect_location: Option<Seq<char>>,
}

impl PutObjectRequestView {
    /// The value with every field empty.
    pub open spec fn empty() -> PutObjectRequestView {
        PutObjectRequestView {
            acl: None,
            body: false,
            bucket: Seq::empty(),
            bucket_key_enabled: None,
            cache_control: None,
            content_disposition: None,
            content_encoding: None,
            content_language: None,
            content_length: None,
            content_md5: None,
            content_type: None,
            expected_bucket_owner: None,
            expires: None,
            grant_full_control: None,
            grant_read: None,
            grant_read_acp: None,
            grant_write_acp: None,
            key: Seq::empty(),
            metadata: None,
            object_lock_legal_hold_status: None,
            object_lock_mode: None,
            object_lock_retain_until_date: None,
            request_payer: None,
            sse_customer_algorithm: None,
            sse_customer_key: None,
            sse_customer_key_md5: None,
            ssekms_encryption_context: None,
            ssekms_key_id: None,
            server_side_encryption: None,
            storage_class: None,
            tagging: None,
            website_redirect_location: None,
        }
    }
}

/// A request to put an object.
#[derive(Debug)]
pub struct PutObjectRequest {
    pub acl: Option<String>,
    /// Whether content comes with the request.
    pub body: Option<Body>,
    pub bucket: String,
    pub bucket_key_enabled: Option<bool>,
    pub cache_control: Option<String>,
    pub content_disposition: Option<String>,
    pub content_encoding: Option<String>,
    pub content_language: Option<String>,
    pub content_length: Option<i64>,
    pub content_md5: Option<String>,
    pub content_type: Option<String>,
    pub expected_bucket_owner: Option<String>,
    pub expires: Option<String>,
    pub grant_full_control: Option<String>,
    pub grant_read: Option<String>,
    pub grant_read_acp: Option<String>,
    pub grant_write_acp: Option<String>,
    pub key: String,
    /// The user metadata to keep with the object.
    pub metadata: Option<Vec<MetaEntry>>,
    pub object_lock_legal_hold_status: Option<String>,
    pub object_lock_mode: Option<String>,
    pub object_lock_retain_until_date: Option<String>,
    pub request_payer: Option<String>,
    pub sse_customer_algorithm: Option<String>,
    pub sse_customer_key: Option<String>,
    pub sse_customer_key_md5: Option<String>,
    pub ssekms_encryption_context: Option<String>,
    pub ssekms_key_id: Option<String>,
    pub server_side_encryption: Option<String>,
    pub storage_class: Option<String>,
    pub tagging: Option<String>,
    pub website_redirect_location: Option<String>,
}

impl View for PutObjectRequest {
    type V = PutObjectRequestView;

    open spec fn view(&self) -> PutObjectRequestView {
        PutObjectRequestView {
            acl: opt_text(self.acl),
            body: self.body is Some,
            bucket: self.bucket@,
            bucket_key_enabled: self.bucket_key_enabled,
            cache_control: opt_text(self.cache_control),
            content_disposition: opt_text(self.content_disposition),
            content_encoding: opt_text(self.content_encoding),
            content_language: opt_text(self.content_language),
            content_length: self.content_length,
            content_md5: opt_text(self.content_md5),
            content_type: opt_text(self.content_type),
            expected_bucket_owner: opt_text(self.expected_bucket_owner),
            expires: opt_text(self.expires),
            grant_full_control: opt_text(self.grant_full_control),
            grant_read: opt_text(self.grant_read),
            grant_read_acp: opt_text(self.grant_read_acp),
            grant_write_acp: opt_text(self.grant_write_acp),
            key: self.key@,
            metadata: opt_meta(self.metadata),
            object_lock_legal_hold_status: opt_text(self.object_lock_legal_hold_status),
            object_lock_mode: opt_text(self.object_lock_mode),
            object_lock_retain_until_date: opt_text(self.object_lock_retain_until_date),
            request_payer: opt_text(self.request_payer),
            sse_customer_algorithm: opt_text(self.sse_customer_algorithm),
            sse_customer_key: opt_text(self.sse_customer_key),
            sse_customer_key_md5: opt_text(self.sse_customer_key_md5),
            ssekms_encryption_context: opt_text(self.ssekms_encryption_context),
            ssekms_key_id: opt_text(self.ssekms_key_id),
            server_side_encryption: opt_text(self.server_side_encryption),
            storage_class: opt_text(self.storage_class),
            tagging: opt_text(self.tagging),
            website_redirect_location: opt_text(self.website_redirect_location),
        }
    }
}

impl Default for PutObjectRequest {
    fn default() -> (value: Self)
        ensures
            value@ == PutObjectRequestView::empty(),
    {
        let value = PutObjectRequest {
            acl: None,
            body: None,
            bucket: String::new(),
            bucket_key_enabled: None,
            cache_control: None,
            content_disposition: None,
            content_encoding: None,
            content_language: None,
            content_length: None,
            content_md5: None,
            content_type: None,
            expected_bucket_owner: None,
            expires: None,
            grant_full_control: None,
            grant_read: None,
            grant_read_acp: None,
            grant_write_acp: None,
            key: String::new(),
            metadata: None,
            object_lock_legal_hold_status: None,
            object_lock_mode: None,
            object_lock_retain_until_date: None,
            request_payer: None,
            sse_customer_algorithm: None,
            sse_customer_key: None,
            sse_customer_key_md5: None,
            ssekms_encryption_context: None,
            ssekms_key_id: None,
            server_side_encryption: None,
            storage_class: None,
            tagging: None,
            website_redirect_location: None,
        };
        value
    }
}
/// What a `PutObjectOutput` holds.
pub struct PutObjectOutputView {
    pub bucket_key_enabled: Option<bool>,
    pub e_tag: Option<Seq<char>>,
    pub expiration: Option<Seq<char>>,
    pub request_charged: Option<Seq<char>>,
    pub sse_customer_algorithm: Option<Seq<char>>,
    pub sse_customer_key_md5: Option<Seq<char>>,
    pub ssekms_encryption_context: Option<Seq<char>>,
    pub ssekms_key_id: Option<Seq<char>>,
    pub server_side_encryption: Option<Seq<char>>,
    pub version_id: Option<Seq<char>>,
    pub checksum: Option<Seq<char>>,
}

impl PutObjectOutputView {
    /// The value with every field empty.
    pub open spec fn empty() -> PutObjectOutputView {
        PutObjectOutputView {
            bucket_key_enabled: None,
            e_tag: None,
            expiration: None,
            request_charged: None,
            sse_customer_algorithm: None,
            sse_customer_key_md5: None,
            ssekms_encryption_context: None,
            ssekms_key_id: None,
            server_side_encryption: None,
            version_id: None,
            checksum: None,
        }
    }
}

/// What putting an object answers with.
#[derive(Debug)]
pub struct PutObjectOutput {
    pub bucket_key_enabled: Option<bool>,
    pub e_tag: Option<String>,
    pub expiration: Option<String>,
    pub request_charged: Option<String>,
    pub sse_customer_algorithm: Option<String>,
    pub sse_customer_key_md5: Option<String>,
    pub ssekms_encryption_context: Option<String>,
    pub ssekms_key_id: Option<String>,
    pub server_side_encryption: Option<String>,
    pub version_id: Option<String>,
    pub checksum: Option<String>,
}

impl View for PutObjectOutput {
    type V = PutObjectOutputView;

    open spec fn view(&self) -> PutObjectOutputView {
        PutObjectOutputView {
            bucket_key_enabled: self.bucket_key_enabled,
            e_tag: opt_text(self.e_tag),
            expiration: opt_text(self.expiration),
            request_charged: opt_text(self.request_charged),
            sse_customer_algorithm: opt_text(self.sse_customer_algorithm),
            sse_customer_key_md5: opt_text(self.sse_customer_key_md5),
            ssekms_encryption_context: opt_text(self.ssekms_encryption_context),
            ssekms_key_id: opt_text(self.ssekms_key_id),
            server_side_encryption: opt_text(self.server_side_encryption),
            version_id: opt_text(self.version_id),
            checksum: opt_text(self.checksum),
        }
    }
}

impl Default for PutObjectOutput {
    fn default() -> (value: Self)
        ensures
            value@ == PutObjectOutputView::empty(),
    {
        let value = PutObjectOutput {
            bucket_key_enabled: None,
            e_tag: None,
            expiration: None,
            request_charged: None,
            sse_customer_algorithm: None,
            sse_customer_key_md5: None,
            ssekms_encryption_context: None,
            ssekms_key_id: None,
            server_side_encryption: None,
            version_id: None,
            checksum: None,
        };
        value
    }
}

} // verus!
