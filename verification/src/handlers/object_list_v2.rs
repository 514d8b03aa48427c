//! Listing the objects of a bucket: `GET` on a bucket with `list-type=2`.

use crate::context::{Context, Operation, OperationView, S3Handler};
use crate::errors::{S3Error, S3ErrorView};
use crate::path::S3Path;
use crate::request::{
    flag_field, header_string_opt, header_text, integer_field, text_field, Field, Method, Query,
};
use crate::response::{Response, ResponseView};
use crate::text::opt_text;
use crate::types::list_object_v2::{
    ListObjectsV2Output, ListObjectsV2OutputView, ListObjectsV2Request, ListObjectsV2RequestView,
};
use crate::xml::{document, into_document};
use vstd::prelude::*;
use vstd::string::*;

verus! {

/// The handler of listing the objects of a bucket.
#[derive(Debug, Clone, Copy)]
pub struct ObjectListHandlerV2;

/// What an `ObjectListV2QS` holds.
pub struct ObjectListV2QSView {
    pub list_type: i8,
    pub continuation_token: Option<Seq<char>>,
    pub delimiter: Option<Seq<char>>,
    pub encoding_type: Option<Seq<char>>,
    pub fetch_owner: Option<bool>,
    pub max_keys: Option<i64>,
    pub prefix: Option<Seq<char>>,
    pub start_after: Option<Seq<char>>,
}

impl ObjectListV2QSView {
    /// What a query string says of the parameters, where it says it
    /// well: no parameter is given twice, and each value is what its
    /// parameter takes. Parameters of other names are passed over.
    pub open spec fn of(query: Seq<(Seq<char>, Seq<char>)>) -> Option<ObjectListV2QSView> {
        let list_type = integer_field(query, "list-type"@);
        let continuation_token = text_field(query, "continuation-token"@);
        let delimiter = text_field(query, "delimiter"@);
        let encoding_type = text_field(query, "encoding-type"@);
        let fetch_owner = flag_field(query, "fetch-owner"@);
        let max_keys = integer_field(query, "max-keys"@);
        let prefix = text_field(query, "prefix"@);
        let start_after = text_field(query, "start-after"@);
        if !(list_type is Given) || list_type->0 < -128 || list_type->0 > 127
            || continuation_token is Spoiled
            || delimiter is Spoiled
            || encoding_type is Spoiled
            || fetch_owner is Spoiled
            || max_keys is Spoiled
            || prefix is Spoiled
            || start_after is Spoiled {
            None
        } else {
            Some(
                ObjectListV2QSView {
                    list_type: list_type->0 as i8,
                    continuation_token: continuation_token.value(),
                    delimiter: delimiter.value(),
                    encoding_type: encoding_type.value(),
                    fetch_owner: fetch_owner.value(),
                    max_keys: max_keys.value(),
                    prefix: prefix.value(),
                    start_after: start_after.value(),
                },
            )
        }
    }
}

/// The parameters of a listing.
#[derive(Debug)]
pub struct ObjectListV2QS {
    pub list_type: i8,
    pub continuation_token: Option<String>,
    pub delimiter: Option<String>,
    pub encoding_type: Option<String>,
    pub fetch_owner: Option<bool>,
    pub max_keys: Option<i64>,
    pub prefix: Option<String>,
    pub start_after: Option<String>,
}

impl View for ObjectListV2QS {
    type V = ObjectListV2QSView;

    open spec fn view(&self) -> ObjectListV2QSView {
        ObjectListV2QSView {
            list_type: self.list_type,
            continuation_token: opt_text(self.continuation_token),
            delimiter: opt_text(self.delimiter),
            encoding_type: opt_text(self.encoding_type),
            fetch_owner: self.fetch_owner,
            max_keys: self.max_keys,
            prefix: opt_text(self.prefix),
            start_after: opt_text(self.start_after),
        }
    }
}

/// The view of parameters that may not have been read.
pub open spec fn read_view(read: Option<ObjectListV2QS>) -> Option<ObjectListV2QSView> {
    match read {
        Some(read) => Some(read@),
        None => None,
    }
}

impl ObjectListV2QS {
    /// Reads the parameters from a query string.
    pub fn from_query(query: &Query) -> (read: Option<Self>)
        ensures
            read_view(read) == ObjectListV2QSView::of(query@),
    {
        let list_type: i8 = match query.integer("list-type") {
            Field::Given(value) => {
                if value < -128 || value > 127 {
                    return None;
                }
                value as i8
            },
            _ => {
                return None;
            },
        };
        let continuation_token = match query.text("continuation-token") {
            Field::Absent => None,
            Field::Given(value) => Some(value),
            Field::Spoiled => {
                return None;
            },
        };
        let delimiter = match query.text("delimiter") {
            Field::Absent => None,
            Field::Given(value) => Some(value),
            Field::Spoiled => {
                return None;
            },
        };
        let encoding_type = match query.text("encoding-type") {
            Field::Absent => None,
            Field::Given(value) => Some(value),
            Field::Spoiled => {
                return None;
            },
        };
        let fetch_owner = match query.flag("fetch-owner") {
            Field::Absent => None,
            Field::Given(value) => Some(value),
            Field::Spoiled => {
                return None;
            },
        };
        let max_keys = match query.integer("max-keys") {
            Field::Absent => None,
            Field::Given(value) => Some(value),
            Field::Spoiled => {
                return None;
            },
        };
        let prefix = match query.text("prefix") {
            Field::Absent => None,
            Field::Given(value) => Some(value),
            Field::Spoiled => {
                return None;
            },
        };
        let start_after = match query.text("start-after") {
            Field::Absent => None,
            Field::Given(value) => Some(value),
            Field::Spoiled => {
                return None;
            },
        };
        Some(
            ObjectListV2QS {
                list_type,
                continuation_token,
                delimiter,
                encoding_type,
                fetch_owner,
                max_keys,
                prefix,
                start_after,
            },
        )
    }
}

/// The request to list `bucket` that the parameters `qs` and the headers of
/// `ctx` make.
pub open spec fn list_request(
    ctx: &Context,
    bucket: Seq<char>,
    qs: ObjectListV2QSView,
) -> ListObjectsV2RequestView {
    ListObjectsV2RequestView {
        bucket,
        continuation_token: qs.continuation_token,
        delimiter: qs.delimiter,
        encoding_type: qs.encoding_type,
        expected_bucket_owner: header_text(ctx.headers@, "x-amz-expected-bucket-owner"@),
        fetch_owner: qs.fetch_owner,
        max_keys: qs.max_keys,
        prefix: qs.prefix,
        request_payer: header_text(ctx.headers@, "x-amz-request-payer"@),
        start_after: qs.start_after,
    }
}

/// The answer to a bucket that was listed: the listing as a document.
pub open spec fn list_response(output: ListObjectsV2OutputView) -> ResponseView {
    ResponseView {
        body: document(output.xml()),
        ..ResponseView::empty(200).with("x-amz-request-charged"@, Some("unimplemented"@))
    }
}

impl S3Handler for ObjectListHandlerV2 {
    open spec fn matches(&self, ctx: &Context) -> bool {
        &&& ctx.method == Method::Get
        &&& ctx.path is Bucket
        &&& ObjectListV2QSView::of(ctx.query@) matches Some(qs)
        &&& qs.list_type == 2
    }

    open spec fn asked(&self, ctx: &Context) -> Result<OperationView, S3ErrorView> {
        match ctx.path {
            S3Path::Bucket { bucket } => match ObjectListV2QSView::of(ctx.query@) {
                Some(qs) => Ok(OperationView::ListObjectsV2(list_request(ctx, bucket@, qs))),
                None => Err(S3ErrorView::refused("Invalid query string"@)),
            },
            _ => Err(S3ErrorView::refused("You should have a Bucket here."@)),
        }
    }

    #[inline]
    fn is_match(&self, ctx: &Context) -> (yes: bool) {
        if ctx.method() == Method::Get && ctx.path().is_bucket() {
            match ObjectListV2QS::from_query(&ctx.query) {
                Some(qs) => qs.list_type == 2,
                None => false,
            }
        } else {
            false
        }
    }

    fn handle(&self, ctx: &Context) -> (asked: Result<Operation, S3Error>) {
        let bucket = match ctx.expect_bucket() {
            Ok(bucket) => bucket,
            Err(error) => {
                return Err(error);
            },
        };
        let qs = match ObjectListV2QS::from_query(&ctx.query) {
            Some(qs) => qs,
            None => {
                return Err(S3Error::invalid_request("Invalid query string"));
            },
        };
        let request = ListObjectsV2Request {
            bucket: bucket.clone(),
            continuation_token: qs.continuation_token,
            delimiter: qs.delimiter,
            encoding_type: qs.encoding_type,
            expected_bucket_owner: header_string_opt("x-amz-expected-bucket-owner", &ctx.headers),
            fetch_owner: qs.fetch_owner,
            max_keys: qs.max_keys,
            prefix: qs.prefix,
            request_payer: header_string_opt("x-amz-request-payer", &ctx.headers),
            start_after: qs.start_after,
        };
        Ok(Operation::ListObjectsV2(request))
    }
}

impl ObjectListHandlerV2 {
    /// The answer to a bucket that was listed.
    pub fn respond(output: ListObjectsV2Output) -> (response: Response)
        ensures
            response@ == list_response(output@),
    {
        let xml = output.to_xml();
        Response::new(200).header_opt(
            "x-amz-request-charged",
            Some(String::from_str("unimplemented")),
        ).body(into_document(xml.as_str()))
    }
}

} // verus!
