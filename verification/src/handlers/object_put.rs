//! Putting an object: `PUT` on an object.

use crate::context::{Context, Operation, OperationView, S3Handler};
use crate::errors::{S3Error, S3ErrorView};
use crate::path::S3Path;
use crate::request::{header_integer, header_parse, header_string_opt, header_text, Method};
use crate::response::{opt_flag, opt_flag_text, Response, ResponseView};
use crate::types::put_object::{
    Body, PutObjectOutput, PutObjectOutputView, PutObjectRequest, PutObjectRequestView,
};
use vstd::prelude::*;
use vstd::string::*;

verus! {

/// The handler of putting an object.
#[derive(Debug, Clone, Copy)]
pub struct ObjectPutHandler;

/// The request to put the object `key` into `bucket` that the headers of
/// `ctx` make. The body of the request is the content.
pub open spec fn put_request(ctx: &Context, bucket: Seq<char>, key: Seq<char>) -> Result<
    PutObjectRequestView,
    S3ErrorView,
> {
    match header_integer(ctx.headers@, "content-length"@) {
        Err(_) => Err(S3ErrorView::refused("Invalid header: content-length"@)),
        Ok(content_length) => Ok(
            PutObjectRequestView {
                bucket,
                key,
                body: true,
                content_length,
                acl: header_text(ctx.headers@, "x-amz-acl"@),
                cache_control: header_text(ctx.headers@, "cache-control"@),
                content_type: header_text(ctx.headers@, "content-type"@),
                content_language: header_text(ctx.headers@, "content-language"@),
                content_encoding: header_text(ctx.headers@, "content-encoding"@),
                content_disposition: header_text(ctx.headers@, "content-disposition"@),
                storage_class: header_text(ctx.headers@, "x-amz-storage-class"@),
                ..PutObjectRequestView::empty()
            },
        ),
    }
}

/// The answer to an object that was put.
pub open spec fn put_object_response(output: PutObjectOutputView) -> ResponseView {
    ResponseView::empty(200).with(
        "etag"@,
        output.e_tag,
    ).with(
        "x-amz-expiration"@,
        output.expiration,
    ).with(
        "x-amz-content-sha256"@,
        output.checksum,
    ).with(
        "x-amz-server-side-encryption"@,
        output.server_side_encryption,
    ).with(
        "x-amz-version-id"@,
        output.version_id,
    ).with(
        "x-amz-server-side-encryption-customer-algorithm"@,
        output.sse_customer_algorithm,
    ).with(
        "x-amz-server-side-encryption-customer-key-md5"@,
        output.sse_customer_key_md5,
    ).with(
        "x-amz-server-side-encryption-aws-kms-key-id"@,
        output.ssekms_key_id,
    ).with(
        "x-amz-server-side-encryption-context"@,
        output.ssekms_encryption_context,
    ).with(
        "x-amz-server-side-encryption-bucket-key-enabled"@,
        opt_flag_text(output.bucket_key_enabled),
    )
}

impl S3Handler for ObjectPutHandler {
    open spec fn matches(&self, ctx: &Context) -> bool {
        ctx.method == Method::Put && ctx.path is Object
    }

    open spec fn asked(&self, ctx: &Context) -> Result<OperationView, S3ErrorView> {
        match ctx.path {
            S3Path::Object { bucket, key } => match put_request(ctx, bucket@, key@) {
                Ok(request) => Ok(OperationView::PutObject(request)),
                Err(error) => Err(error),
            },
            _ => Err(S3ErrorView::refused("You should have an Object here."@)),
        }
    }

    #[inline]
    fn is_match(&self, ctx: &Context) -> (yes: bool) {
        ctx.method() == Method::Put && ctx.path().is_object()
    }

    fn handle(&self, ctx: &Context) -> (asked: Result<Operation, S3Error>) {
        let (bucket, key) = match ctx.expect_object() {
            Ok(names) => names,
            Err(error) => {
                return Err(error);
            },
        };
        let content_length = match header_parse("content-length", &ctx.headers) {
            Ok(content_length) => content_length,
            Err(_) => {
                return Err(S3Error::invalid_request("Invalid header: content-length"));
            },
        };
        let mut request = PutObjectRequest::default();
        request.bucket = bucket.clone();
        request.key = key.clone();
        request.body = Some(Body {  });
        request.content_length = content_length;
        request.acl = header_string_opt("x-amz-acl", &ctx.headers);
        request.cache_control = header_string_opt("cache-control", &ctx.headers);
        request.content_type = header_string_opt("content-type", &ctx.headers);
        request.content_language = header_string_opt("content-language", &ctx.headers);
        request.content_encoding = header_string_opt("content-encoding", &ctx.headers);
        request.content_disposition = header_string_opt("content-disposition", &ctx.headers);
        request.storage_class = header_string_opt("x-amz-storage-class", &ctx.headers);
        Ok(Operation::PutObject(request))
    }
}

impl ObjectPutHandler {
    /// The answer to an object that was put.
    pub fn respond(output: PutObjectOutput) -> (response: Response)
        ensures
            response@ == put_object_response(output@),
    {
        Response::new(200).header_opt(
            "etag",
            output.e_tag,
        ).header_opt(
            "x-amz-expiration",
            output.expiration,
        ).header_opt(
            "x-amz-content-sha256",
            output.checksum,
        ).header_opt(
            "x-amz-server-side-encryption",
            output.server_side_encryption,
        ).header_opt(
            "x-amz-version-id",
            output.version_id,
        ).header_opt(
            "x-amz-server-side-encryption-customer-algorithm",
            output.sse_customer_algorithm,
        ).header_opt(
            "x-amz-server-side-encryption-customer-key-md5",
            output.sse_customer_key_md5,
        ).header_opt(
            "x-amz-server-side-encryption-aws-kms-key-id",
            output.ssekms_key_id,
        ).header_opt(
            "x-amz-server-side-encryption-context",
            output.ssekms_encryption_context,
        ).header_opt(
            "x-amz-server-side-encryption-bucket-key-enabled",
            opt_flag(output.bucket_key_enabled),
        )
    }
}

} // verus!
