//! Deleting an object: `DELETE` on an object.

use crate::context::{Context, Operation, OperationView, S3Handler};
use crate::errors::{S3Error, S3ErrorView};
use crate::path::S3Path;
use crate::request::{header_flag, header_parse_bool, header_string_opt, header_text, Method};
use crate::response::{opt_flag, opt_flag_text, Response, ResponseView};
use crate::types::delete_object::{
    DeleteObjectOutput, DeleteObjectOutputView, DeleteObjectRequest, DeleteObjectRequestView,
};
use vstd::prelude::*;
use vstd::string::*;

verus! {

/// The handler of deleting an object.
#[derive(Debug, Clone, Copy)]
pub struct ObjectDeleteHandler;

/// The request to delete the object `key` of `bucket` that the headers of
/// `ctx` make.
pub open spec fn delete_request(
    ctx: &Context,
    bucket: Seq<char>,
    key: Seq<char>,
) -> DeleteObjectRequestView {
    DeleteObjectRequestView {
        bucket,
        key,
        mfa: header_text(ctx.headers@, "x-amz-mfa"@),
        request_payer: header_text(ctx.headers@, "x-amz-request-payer"@),
        bypass_governance_retention: header_flag(
            ctx.headers@,
            "x-amz-bypass-governance-retention"@,
        ),
        expected_bucket_owner: header_text(ctx.headers@, "x-amz-expected-bucket-owner"@),
        ..DeleteObjectRequestView::empty()
    }
}

/// The answer to an object that was deleted.
pub open spec fn delete_object_response(output: DeleteObjectOutputView) -> ResponseView {
    ResponseView::empty(200).with(
        "x-amz-version-id"@,
        output.version_id,
    ).with(
        "x-amz-delete-marker"@,
        opt_flag_text(output.delete_marker),
    ).with(
        "x-amz-request-charged"@,
        output.request_charged,
    )
}

impl S3Handler for ObjectDeleteHandler {
    open spec fn matches(&self, ctx: &Context) -> bool {
        ctx.method == Method::Delete && ctx.path is Object
    }

    open spec fn asked(&self, ctx: &Context) -> Result<OperationView, S3ErrorView> {
        match ctx.path {
            S3Path::Object { bucket, key } => Ok(
                OperationView::DeleteObject(delete_request(ctx, bucket@, key@)),
            ),
            _ => Err(S3ErrorView::refused("You should have an Object here."@)),
        }
    }

    #[inline]
    fn is_match(&self, ctx: &Context) -> (yes: bool) {
        ctx.method() == Method::Delete && ctx.path().is_object()
    }

    fn handle(&self, ctx: &Context) -> (asked: Result<Operation, S3Error>) {
        let (bucket, key) = match ctx.expect_object() {
            Ok(names) => names,
            Err(error) => {
                return Err(error);
            },
        };
        let mut request = DeleteObjectRequest::default();
        request.bucket = bucket.clone();
        request.key = key.clone();
        request.mfa = header_string_opt("x-amz-mfa", &ctx.headers);
        request.request_payer = header_string_opt("x-amz-request-payer", &ctx.headers);
        request.bypass_governance_retention = header_parse_bool(
            "x-amz-bypass-governance-retention",
            &ctx.headers,
        );
        request.expected_bucket_owner = header_string_opt(
            "x-amz-expected-bucket-owner",
            &ctx.headers,
        );
        Ok(Operation::DeleteObject(request))
    }
}

impl ObjectDeleteHandler {
    /// The answer to an object that was deleted.
    pub fn respond(output: DeleteObjectOutput) -> (response: Response)
        ensures
            response@ == delete_object_response(output@),
    {
        Response::new(200).header_opt(
            "x-amz-version-id",
            output.version_id,
        ).header_opt(
            "x-amz-delete-marker",
            opt_flag(output.delete_marker),
        ).header_opt(
            "x-amz-request-charged",
            output.request_charged,
        )
    }
}

} // verus!
