//! The requests and the answers of the protocol, as plain values.

pub mod common;
pub mod create_bucket_configuration;
pub mod delete_object;
pub mod get_object;
pub mod get_object_attributes;
pub mod list_object;
pub mod list_object_v2;
pub mod object;
pub mod owner;
pub mod put_object;

pub use common::CommonPrefix;
pub use create_bucket_configuration::{
    CreateBucketConfiguration, CreateBucketOutput, CreateBucketRequest,
};
pub use delete_object::{DeleteObjectOutput, DeleteObjectRequest};
pub use get_object::{GetObjectOutput, GetObjectRequest};
pub use get_object_attributes::{GetObjectAttributesOutput, GetObjectAttributesRequest};
pub use list_object::{ListObjectsOutput, ListObjectsRequest};
pub use list_object_v2::{ListObjectsV2Output, ListObjectsV2Request};
pub use object::Object;
pub use owner::Owner;
pub use put_object::{Body, PutObjectOutput, PutObjectRequest};
