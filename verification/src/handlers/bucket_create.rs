//! Making a bucket: `PUT` on a bucket.

use crate::context::{Context, Operation, OperationView, S3Handler};
use crate::errors::{S3Error, S3ErrorCodeKind, S3ErrorView};
use crate::path::S3Path;
use crate::request::Method;
use crate::response::{Response, ResponseView};
use crate::types::create_bucket_configuration::{
    CreateBucketConfiguration, CreateBucketOutput, CreateBucketOutputView, CreateBucketRequest,
    CreateBucketRequestView,
};
use vstd::prelude::*;
use vstd::string::*;

verus! {

/// The handler of making a bucket.
#[derive(Debug, Clone, Copy)]
pub struct BucketCreateHandler;

/// The answer to a bucket that was made: its path as the location.
pub open spec fn create_bucket_response(output: CreateBucketOutputView) -> ResponseView {
    ResponseView::empty(200).with(
        "location"@,
        output.location,
    )
}

impl S3Handler for BucketCreateHandler {
    open spec fn matches(&self, ctx: &Context) -> bool {
        ctx.method == Method::Put && ctx.path is Bucket
    }

    open spec fn asked(&self, ctx: &Context) -> Result<OperationView, S3ErrorView> {
        match ctx.path {
            S3Path::Bucket { bucket } => Ok(
                OperationView::CreateBucket(
                    CreateBucketRequestView { bucket: bucket@, ..CreateBucketRequestView::empty() },
                ),
            ),
            _ => Err(S3ErrorView::refused("You should have a Bucket here."@)),
        }
    }

    #[inline]
    fn is_match(&self, ctx: &Context) -> (yes: bool) {
        ctx.method() == Method::Put && ctx.path().is_bucket()
    }

    fn handle(&self, ctx: &Context) -> (asked: Result<Operation, S3Error>) {
        match ctx.expect_bucket() {
            Ok(bucket) => {
                let mut request = CreateBucketRequest::default();
                request.bucket = bucket.clone();
                Ok(Operation::CreateBucket(request))
            },
            Err(error) => Err(error),
        }
    }
}

impl BucketCreateHandler {
    /// The configuration that the body of the request was read as. A body
    /// that could not be read as one is refused as malformed XML, before
    /// anything is asked of the storage.
    pub fn configuration(parsed: Option<CreateBucketConfiguration>) -> (read: Result<
        CreateBucketConfiguration,
        S3Error,
    >)
        ensures
            match parsed {
                Some(configuration) => read == Ok::<CreateBucketConfiguration, S3Error>(
                    configuration,
                ),
                None => read matches Err(error) && error@ == S3ErrorView::plain(
                    S3ErrorCodeKind::MalformedXML,
                ),
            },
    {
        match parsed {
            Some(configuration) => Ok(configuration),
            None => Err(S3Error::of_kind(S3ErrorCodeKind::MalformedXML)),
        }
    }

    /// The answer to a bucket that was made.
    pub fn respond(output: CreateBucketOutput) -> (response: Response)
        ensures
            response@ == create_bucket_response(output@),
    {
        Response::new(200).header_opt(
            "location",
            output.location,
        )
    }
}

} // verus!
