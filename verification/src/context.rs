//! A request as the handlers see it, and the chain that picks the handler.

use crate::errors::{S3Error, S3ErrorCodeKind, S3ErrorView, S3HTTPError, S3HTTPErrorView};
use crate::path::{decoded_path, resolve, S3Path};
use crate::request::{Headers, Method, Query};
use crate::types::create_bucket_configuration::{CreateBucketRequest, CreateBucketRequestView};
use crate::types::delete_object::{DeleteObjectRequest, DeleteObjectRequestView};
use crate::types::get_object::{GetObjectRequest, GetObjectRequestView};
use crate::types::list_object_v2::{ListObjectsV2Request, ListObjectsV2RequestView};
use crate::types::put_object::{PutObjectRequest, PutObjectRequestView};
use vstd::prelude::*;
use vstd::string::*;
use vstd::utf8::*;

verus! {

/// One request.
#[derive(Debug)]
pub struct Context {
    /// The identifier that the request was given when it came in.
    pub request_id: String,
    pub method: Method,
    pub headers: Headers,
    pub query: Query,
    /// The resource that the request is for.
    pub path: S3Path,
}

/// Calls `ulid::Ulid::new` and, on what it gives, `Ulid::to_string`: a new
/// identifier, made of the time and of chance, written in 26 characters.
#[verifier::external_body]
fn new_request_id() -> (id: String)
    ensures
        id@.len() == 26,
{
    ulid::Ulid::new().to_string()
}

impl Context {
    /// Takes a request in under a new identifier of 26 characters. It
    /// resolves the path, still percent-encoded, and keeps the rest as it is.
    /// A path that does not resolve is an error that carries the
    /// identifier, as `S3Path::from_part` says.
    pub fn new(method: Method, raw_path: &str, headers: Headers, query: Query) -> (taken: Result<
        Self,
        S3HTTPError,
    >)
        ensures
            match decoded_path(raw_path.spec_bytes()) {
                None => taken matches Err(error) && error@ == (S3HTTPErrorView {
                    ressource: Seq::empty(),
                    request_id: error@.request_id,
                    kind: S3ErrorView::plain(S3ErrorCodeKind::InvalidURI),
                }) && error@.request_id.len() == 26,
                Some(path) => match resolve(path) {
                    Ok(resource) => taken matches Ok(context) && context.path@ == resource
                        && context.request_id@.len() == 26 && context.method == method
                        && context.headers == headers && context.query == query,
                    Err(kind) => taken matches Err(error) && error@ == (S3HTTPErrorView {
                        ressource: decode_utf8(path),
                        request_id: error@.request_id,
                        kind: S3ErrorView::plain(kind),
                    }) && error@.request_id.len() == 26,
                },
            },
    {
        Self::with_request_id(new_request_id(), method, raw_path, headers, query)
    }

    /// Takes a request in under the identifier `request_id`. It resolves the
    /// path, still percent-encoded, and keeps the rest as it is. A path that
    /// does not resolve is an error that carries `request_id`, as
    /// `S3Path::from_part` says.
    pub fn with_request_id(
        request_id: String,
        method: Method,
        raw_path: &str,
        headers: Headers,
        query: Query,
    ) -> (taken: Result<Self, S3HTTPError>)
        ensures
            match decoded_path(raw_path.spec_bytes()) {
                None => taken matches Err(error) && error@ == (S3HTTPErrorView {
                    ressource: Seq::empty(),
                    request_id: request_id@,
                    kind: S3ErrorView::plain(S3ErrorCodeKind::InvalidURI),
                }),
                Some(path) => match resolve(path) {
                    Ok(resource) => taken matches Ok(context) && context.path@ == resource
                        && context.request_id == request_id && context.method == method
                        && context.headers == headers && context.query == query,
                    Err(kind) => taken matches Err(error) && error@ == (S3HTTPErrorView {
                        ressource: decode_utf8(path),
                        request_id: request_id@,
                        kind: S3ErrorView::plain(kind),
                    }),
                },
            },
    {
        match S3Path::from_part(request_id.as_str(), raw_path) {
            Ok(path) => Ok(Self { request_id, method, headers, query, path }),
            Err(error) => Err(error),
        }
    }

    pub fn path(&self) -> (path: &S3Path)
        ensures
            *path == self.path,
    {
        &self.path
    }

    /// The name of the bucket, where the request is for a bucket.
    pub fn expect_bucket(&self) -> (name: Result<&String, S3Error>)
        ensures
            match self.path {
                S3Path::Bucket { bucket } => name matches Ok(found) && *found == bucket,
                _ => name matches Err(error) && error@ == S3ErrorView::refused(
                    "You should have a Bucket here."@,
                ),
            },
    {
        match &self.path {
            S3Path::Bucket { bucket } => Ok(bucket),
            _ => Err(S3Error::invalid_request("You should have a Bucket here.")),
        }
    }

    /// The names of the bucket and of the key, where the request is for an
    /// object.
    pub fn expect_object(&self) -> (names: Result<(&String, &String), S3Error>)
        ensures
            match self.path {
                S3Path::Object { bucket, key } => names matches Ok(found) && *found.0 == bucket
                    && *found.1 == key,
                _ => names matches Err(error) && error@ == S3ErrorView::refused(
                    "You should have an Object here."@,
                ),
            },
    {
        match &self.path {
            S3Path::Object { bucket, key } => Ok((bucket, key)),
            _ => Err(S3Error::invalid_request("You should have an Object here.")),
        }
    }

    /// Nothing, where the request is for the root.
    pub fn expect_root(&self) -> (root: Result<(), S3Error>)
        ensures
            match self.path {
                S3Path::Root => root is Ok,
                _ => root matches Err(error) && error@ == S3ErrorView::refused(
                    "You should have a Root here."@,
                ),
            },
    {
        match &self.path {
            S3Path::Root => Ok(()),
            _ => Err(S3Error::invalid_request("You should have a Root here.")),
        }
    }

    pub fn request_id(&self) -> (id: &str)
        ensures
            id@ == self.request_id@,
    {
        self.request_id.as_str()
    }

    /// The resource of the request, as errors name it.
    pub fn resource(&self) -> (text: String)
        ensures
            text@ == self.path.resource_text(),
    {
        match &self.path {
            S3Path::Root => String::from_str("/"),
            S3Path::Bucket { bucket } => {
                let mut text = String::from_str("/");
                text.append(bucket.as_str());
                text.append("/");
                text
            },
            S3Path::Object { bucket, key } => {
                let mut text = String::from_str("/");
                text.append(bucket.as_str());
                text.append("/");
                text.append(key.as_str());
                text
            },
        }
    }

    pub fn method(&self) -> (method: Method)
        ensures
            method == self.method,
    {
        self.method
    }
}

/// What a handler asks of the storage.
#[derive(Debug)]
pub enum Operation {
    /// Make a bucket, once the body of the request has been read as a
    /// configuration.
    CreateBucket(CreateBucketRequest),
    /// Put the body of the request into an object.
    PutObject(PutObjectRequest),
    DeleteObject(DeleteObjectRequest),
    ListObjectsV2(ListObjectsV2Request),
    GetObject(GetObjectRequest),
}

pub enum OperationView {
    CreateBucket(CreateBucketRequestView),
    PutObject(PutObjectRequestView),
    DeleteObject(DeleteObjectRequestView),
    ListObjectsV2(ListObjectsV2RequestView),
    GetObject(GetObjectRequestView),
}

impl View for Operation {
    type V = OperationView;

    open spec fn view(&self) -> OperationView {
        match self {
            Operation::CreateBucket(request) => OperationView::CreateBucket(request@),
            Operation::PutObject(request) => OperationView::PutObject(request@),
            Operation::DeleteObject(request) => OperationView::DeleteObject(request@),
            Operation::ListObjectsV2(request) => OperationView::ListObjectsV2(request@),
            Operation::GetObject(request) => OperationView::GetObject(request@),
        }
    }
}

/// What a handler came to, by its view.
pub open spec fn asked_view(asked: Result<Operation, S3Error>) -> Result<
    OperationView,
    S3ErrorView,
> {
    match asked {
        Ok(operation) => Ok(operation@),
        Err(error) => Err(error@),
    }
}

/// A handler of one operation of the protocol. The routing of the protocol
/// goes by the method, the shape of the path and the query string together,
/// so each handler says itself whether a request is its own.
pub trait S3Handler {
    /// Whether the request is for this handler.
    spec fn matches(&self, ctx: &Context) -> bool;

    /// What the handler asks of the storage for the request, or the error
    /// that it refuses the request with.
    spec fn asked(&self, ctx: &Context) -> Result<OperationView, S3ErrorView>;

    /// Whether the request is for this handler.
    fn is_match(&self, ctx: &Context) -> (yes: bool)
        ensures
            yes == self.matches(ctx),
    ;

    /// Reads the request and says what to ask of the storage.
    fn handle(&self, ctx: &Context) -> (asked: Result<Operation, S3Error>)
        ensures
            asked_view(asked) == self.asked(ctx),
    ;
}

/// The end of a chain of handlers: it takes no request.
#[derive(Debug, Clone, Copy)]
pub struct VisitorNil;

/// What a request that no handler takes is refused with.
pub open spec fn not_implemented() -> S3ErrorView {
    S3ErrorView::refused(
        "This pattern has not been implemented yet, feel free to drop an issue at `https://github.com/miaxos/wasmio`."@,
    )
}

impl S3Handler for VisitorNil {
    open spec fn matches(&self, ctx: &Context) -> bool {
        false
    }

    open spec fn asked(&self, ctx: &Context) -> Result<OperationView, S3ErrorView> {
        Err(not_implemented())
    }

    #[inline]
    fn is_match(&self, ctx: &Context) -> (yes: bool) {
        false
    }

    fn handle(&self, ctx: &Context) -> (asked: Result<Operation, S3Error>) {
        Err(
            S3Error::invalid_request(
                "This pattern has not been implemented yet, feel free to drop an issue at `https://github.com/miaxos/wasmio`.",
            ),
        )
    }
}

impl VisitorNil {
    /// The chain that tries `visitor` and nothing else.
    pub fn with<V>(self, visitor: V) -> (chain: VisitorCons<V, Self>)
        ensures
            chain.0 == visitor,
            chain.1 == self,
    {
        VisitorCons(visitor, self)
    }
}

/// A chain of handlers: a first handler, and the chain of the others.
#[derive(Debug, Clone, Copy)]
pub struct VisitorCons<A, B>(pub A, pub B);

impl<A, B> VisitorCons<A, B> {
    /// The chain that tries `visitor` first and this chain after it.
    pub fn with<V>(self, visitor: V) -> (chain: VisitorCons<V, Self>)
        ensures
            chain.0 == visitor,
            chain.1 == self,
    {
        VisitorCons(visitor, self)
    }
}

impl<A: S3Handler, B: S3Handler> S3Handler for VisitorCons<A, B> {
    /// A chain takes what its first handler or the rest of it takes.
    open spec fn matches(&self, ctx: &Context) -> bool {
        self.0.matches(ctx) || self.1.matches(ctx)
    }

    /// The first handler that takes the request handles it, and no other.
    open spec fn asked(&self, ctx: &Context) -> Result<OperationView, S3ErrorView> {
        if self.0.matches(ctx) {
            self.0.asked(ctx)
        } else {
            self.1.asked(ctx)
        }
    }

    #[inline]
    fn is_match(&self, ctx: &Context) -> (yes: bool) {
        self.0.is_match(ctx) || self.1.is_match(ctx)
    }

    fn handle(&self, ctx: &Context) -> (asked: Result<Operation, S3Error>) {
        if self.0.is_match(ctx) {
            self.0.handle(ctx)
        } else {
            self.1.handle(ctx)
        }
    }
}

} // verus!
