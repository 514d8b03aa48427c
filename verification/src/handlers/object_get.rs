//! Getting an object: `GET` on an object.

use crate::context::{Context, Operation, OperationView, S3Handler};
use crate::errors::{S3Error, S3ErrorView};
use crate::path::S3Path;
use crate::request::{
    header_string_opt, header_text, integer_field, text_field, Field, Method, Query,
};
use crate::response::{opt_flag, opt_flag_text, replaced, Response, ResponseView};
use crate::storage::info::meta_pairs;
use crate::text::{opt_integer_text, opt_integer_to_text, opt_text};
use crate::types::get_object::{
    GetObjectOutput, GetObjectOutputView, GetObjectRequest, GetObjectRequestView,
};
use vstd::prelude::*;
use vstd::string::*;
use vstd::utf8::*;

verus! {

/// The handler of getting an object.
#[derive(Debug, Clone, Copy)]
pub struct ObjectGetHandler;

/// What an `ObjectGetQS` holds.
pub struct ObjectGetQSView {
    pub override_cache_control: Option<Seq<char>>,
    pub override_content_dispositon: Option<Seq<char>>,
    pub override_content_encoding: Option<Seq<char>>,
    pub override_content_language: Option<Seq<char>>,
    pub override_content_type: Option<Seq<char>>,
    pub override_expires: Option<Seq<char>>,
    pub part_number: Option<i64>,
    pub version_id: Option<Seq<char>>,
}

impl ObjectGetQSView {
    /// What a query string says of the parameters, where it says it
    /// well: no parameter is given twice, and each value is what its
    /// parameter takes. Parameters of other names are passed over.
    pub open spec fn of(query: Seq<(Seq<char>, Seq<char>)>) -> Option<ObjectGetQSView> {
        let override_cache_control = text_field(query, "response-cache-control"@);
        let override_content_dispositon = text_field(query, "response-content-disposition"@);
        let override_content_encoding = text_field(query, "response-content-encoding"@);
        let override_content_language = text_field(query, "response-content-language"@);
        let override_content_type = text_field(query, "response-content-type"@);
        let override_expires = text_field(query, "response-expires"@);
        let part_number = integer_field(query, "partNumber"@);
        let version_id = text_field(query, "versionId"@);
        if override_cache_control is Spoiled
            || override_content_dispositon is Spoiled
            || override_content_encoding is Spoiled
            || override_content_language is Spoiled
            || override_content_type is Spoiled
            || override_expires is Spoiled
            || part_number is Spoiled
            || version_id is Spoiled {
            None
        } else {
            Some(
                ObjectGetQSView {
                    override_cache_control: override_cache_control.value(),
                    override_content_dispositon: override_content_dispositon.value(),
                    override_content_encoding: override_content_encoding.value(),
                    override_content_language: override_content_language.value(),
                    override_content_type: override_content_type.value(),
                    override_expires: override_expires.value(),
                    part_number: part_number.value(),
                    version_id: version_id.value(),
                },
            )
        }
    }
}

/// The parameters of getting an object: what to put in place of the headers
/// kept with the object, and which part or version is asked for.
#[derive(Debug)]
pub struct ObjectGetQS {
    pub override_cache_control: Option<String>,
    pub override_content_dispositon: Option<String>,
    pub override_content_encoding: Option<String>,
    pub override_content_language: Option<String>,
    pub override_content_type: Option<String>,
    pub override_expires: Option<String>,
    pub part_number: Option<i64>,
    pub version_id: Option<String>,
}

impl View for ObjectGetQS {
    type V = ObjectGetQSView;

    open spec fn view(&self) -> ObjectGetQSView {
        ObjectGetQSView {
            override_cache_control: opt_text(self.override_cache_control),
            override_content_dispositon: opt_text(self.override_content_dispositon),
            override_content_encoding: opt_text(self.override_content_encoding),
            override_content_language: opt_text(self.override_content_language),
            override_content_type: opt_text(self.override_content_type),
            override_expires: opt_text(self.override_expires),
            part_number: self.part_number,
            version_id: opt_text(self.version_id),
        }
    }
}

/// The view of parameters that may not have been read.
pub open spec fn read_view(read: Option<ObjectGetQS>) -> Option<ObjectGetQSView> {
    match read {
        Some(read) => Some(read@),
        None => None,
    }
}

impl ObjectGetQS {
    /// Reads the parameters from a query string.
    pub fn from_query(query: &Query) -> (read: Option<Self>)
        ensures
            read_view(read) == ObjectGetQSView::of(query@),
    {
        let override_cache_control = match query.text("response-cache-control") {
            Field::Absent => None,
            Field::Given(value) => Some(value),
            Field::Spoiled => {
                return None;
            },
        };
        let override_content_dispositon = match query.text("response-content-disposition") {
            Field::Absent => None,
            Field::Given(value) => Some(value),
            Field::Spoiled => {
                return None;
            },
        };
        let override_content_encoding = match query.text("response-content-encoding") {
            Field::Absent => None,
            Field::Given(value) => Some(value),
            Field::Spoiled => {
                return None;
            },
        };
        let override_content_language = match query.text("response-content-language") {
            Field::Absent => None,
            Field::Given(value) => Some(value),
            Field::Spoiled => {
                return None;
            },
        };
        let override_content_type = match query.text("response-content-type") {
            Field::Absent => None,
            Field::Given(value) => Some(value),
            Field::Spoiled => {
                return None;
            },
        };
        let override_expires = match query.text("response-expires") {
            Field::Absent => None,
            Field::Given(value) => Some(value),
            Field::Spoiled => {
                return None;
            },
        };
        let part_number = match query.integer("partNumber") {
            Field::Absent => None,
            Field::Given(value) => Some(value),
            Field::Spoiled => {
                return None;
            },
        };
        let version_id = match query.text("versionId") {
            Field::Absent => None,
            Field::Given(value) => Some(value),
            Field::Spoiled => {
                return None;
            },
        };
        Some(
            ObjectGetQS {
                override_cache_control,
                override_content_dispositon,
                override_content_encoding,
                override_content_language,
                override_content_type,
                override_expires,
                part_number,
                version_id,
            },
        )
    }
}

/// The request to get the object `key` of `bucket` that the parameters `qs`
/// and the headers of `ctx` make.
pub open spec fn get_request(
    ctx: &Context,
    bucket: Seq<char>,
    key: Seq<char>,
    qs: ObjectGetQSView,
) -> GetObjectRequestView {
    GetObjectRequestView {
        bucket,
        key,
        part_number: qs.part_number,
        response_cache_control: qs.override_cache_control,
        response_content_disposition: qs.override_content_dispositon,
        response_content_encoding: qs.override_content_encoding,
        response_content_language: qs.override_content_language,
        response_content_type: qs.override_content_type,
        response_expires: qs.override_expires,
        version_id: qs.version_id,
        expected_bucket_owner: header_text(ctx.headers@, "x-amz-expected-bucket-owner"@),
        request_payer: header_text(ctx.headers@, "x-amz-request-payer"@),
        if_match: header_text(ctx.headers@, "if-match"@),
        if_modified_since: header_text(ctx.headers@, "if-modified-since"@),
        if_none_match: header_text(ctx.headers@, "if-none-match"@),
        if_unmodified_since: header_text(ctx.headers@, "if-unmodified-since"@),
        range: header_text(ctx.headers@, "range"@),
        sse_customer_algorithm: header_text(
            ctx.headers@,
            "x-amz-server-side-encryption-customer-algorithm"@,
        ),
        sse_customer_key: header_text(ctx.headers@, "x-amz-server-side-encryption-customer-key"@),
        sse_customer_key_md5: header_text(
            ctx.headers@,
            "x-amz-server-side-encryption-customer-key-md5"@,
        ),
    }
}

/// The name that a header has once it is taken in: in lower case where it
/// may be a name, nothing where it may not.
pub uninterp spec fn header_name_text(name: Seq<char>) -> Option<Seq<char>>;

/// Whether bytes may be the value of a header: none of them is a control
/// byte other than the tabulator.
pub open spec fn header_value_valid(value: Seq<u8>) -> bool {
    forall|i: int|
        0 <= i < value.len() ==> ((#[trigger] value[i]) >= 32 && value[i] != 127) || value[i] == 9
}

/// Calls `http::HeaderName::from_bytes`, which takes the bytes that may be
/// the name of a header and gives the name in lower case.
#[verifier::external_body]
fn header_name(name: &str) -> (taken: Option<String>)
    ensures
        opt_text(taken) == header_name_text(name@),
{
    match axum::http::HeaderName::from_bytes(name.as_bytes()) {
        Ok(name) => Some(name.as_str().to_owned()),
        Err(_) => None,
    }
}

/// Calls `http::HeaderValue::from_bytes`, which takes every byte from 32 on
/// but 127, and the tabulator.
#[verifier::external_body]
fn header_value_ok(value: &str) -> (ok: bool)
    ensures
        ok == header_value_valid(value.spec_bytes()),
{
    axum::http::HeaderValue::from_bytes(value.as_bytes()).is_ok()
}

/// The header that one pair of user metadata becomes: `x-amz-meta-` and the
/// key as the name, where that may be the name of a header and the value may
/// be the value of one.
pub open spec fn meta_header(pair: (Seq<char>, Seq<char>)) -> Option<(Seq<char>, Seq<char>)> {
    match header_name_text("x-amz-meta-"@ + pair.0) {
        Some(name) => if header_value_valid(encode_utf8(pair.1)) {
            Some((name, pair.1))
        } else {
            None
        },
        None => None,
    }
}

/// The header lines with the user metadata among them: each pair that can be
/// a header is set, one after the other, in place of what had its name; the
/// others are passed over.
pub open spec fn with_metadata(
    headers: Seq<(Seq<char>, Seq<char>)>,
    metadata: Seq<(Seq<char>, Seq<char>)>,
) -> Seq<(Seq<char>, Seq<char>)>
    decreases metadata.len(),
{
    if metadata.len() == 0 {
        headers
    } else {
        let before = with_metadata(headers, metadata.drop_last());
        match meta_header(metadata.last()) {
            Some((name, value)) => replaced(before, name, value),
            None => before,
        }
    }
}

/// The answer to an object that was found, before the user metadata: each
/// header that there is a value for, in this order.
pub open spec fn get_object_headers(output: GetObjectOutputView) -> ResponseView {
    ResponseView::empty(200).with(
        "accept-ranges"@,
        output.accept_ranges,
    ).with(
        "cache-control"@,
        output.cache_control,
    ).with(
        "content-disposition"@,
        output.content_disposition,
    ).with(
        "content-encoding"@,
        output.content_encoding,
    ).with(
        "content-language"@,
        output.content_language,
    ).with(
        "content-length"@,
        opt_integer_text(output.content_length),
    ).with(
        "content-range"@,
        output.content_range,
    ).with(
        "content-type"@,
        output.content_type,
    ).with(
        "etag"@,
        output.e_tag,
    ).with(
        "expires"@,
        output.expires,
    ).with(
        "last-modified"@,
        output.last_modified,
    ).with(
        "x-amz-server-side-encryption-bucket-key-enabled"@,
        opt_flag_text(output.bucket_key_enabled),
    ).with(
        "x-amz-expiration"@,
        output.expiration,
    ).with(
        "x-amz-delete-marker"@,
        opt_flag_text(output.delete_marker),
    ).with(
        "x-amz-missing-meta"@,
        opt_integer_text(output.missing_meta),
    ).with(
        "x-amz-restore"@,
        output.restore,
    ).with(
        "x-amz-object-lock-mode"@,
        output.object_lock_mode,
    ).with(
        "x-amz-object-lock-legal-hold"@,
        output.object_lock_legal_hold_status,
    ).with(
        "x-amz-object-lock-retain-until-date"@,
        output.object_lock_retain_until_date,
    ).with(
        "x-amz-mp-parts-count"@,
        opt_integer_text(output.parts_count),
    ).with(
        "x-amz-replication-status"@,
        output.replication_status,
    ).with(
        "x-amz-request-charged"@,
        output.request_charged,
    ).with(
        "x-amz-server-side-encryption-customer-algorithm"@,
        output.sse_customer_algorithm,
    ).with(
        "x-amz-server-side-encryption-customer-key-md5"@,
        output.sse_customer_key_md5,
    ).with(
        "x-amz-server-side-encryption-aws-kms-key-id"@,
        output.ssekms_key_id,
    ).with(
        "x-amz-server-side-encryption"@,
        output.server_side_encryption,
    ).with(
        "x-amz-storage-class"@,
        output.storage_class,
    ).with(
        "x-amz-tagging-count"@,
        opt_integer_text(output.tag_count),
    ).with(
        "x-amz-version-id"@,
        output.version_id,
    ).with(
        "x-amz-website-redirect-location"@,
        output.website_redirect_location,
    )
}

/// The answer to an object that was found. Its content is sent behind it as
/// it is read.
pub open spec fn get_object_response(output: GetObjectOutputView) -> ResponseView {
    let plain = get_object_headers(output);
    match output.metadata {
        Some(metadata) => ResponseView {
            headers: with_metadata(plain.headers, metadata),
            ..plain
        },
        None => plain,
    }
}

impl S3Handler for ObjectGetHandler {
    open spec fn matches(&self, ctx: &Context) -> bool {
        ctx.method == Method::Get && ctx.path is Object
    }

    open spec fn asked(&self, ctx: &Context) -> Result<OperationView, S3ErrorView> {
        match ctx.path {
            S3Path::Object { bucket, key } => match ObjectGetQSView::of(ctx.query@) {
                Some(qs) => Ok(OperationView::GetObject(get_request(ctx, bucket@, key@, qs))),
                None => Err(S3ErrorView::refused("Invalid query string"@)),
            },
            _ => Err(S3ErrorView::refused("You should have an Object here."@)),
        }
    }

    #[inline]
    fn is_match(&self, ctx: &Context) -> (yes: bool) {
        ctx.method() == Method::Get && ctx.path().is_object()
    }

    fn handle(&self, ctx: &Context) -> (asked: Result<Operation, S3Error>) {
        let (bucket, key) = match ctx.expect_object() {
            Ok(names) => names,
            Err(error) => {
                return Err(error);
            },
        };
        let qs = match ObjectGetQS::from_query(&ctx.query) {
            Some(qs) => qs,
            None => {
                return Err(S3Error::invalid_request("Invalid query string"));
            },
        };
        let mut request = GetObjectRequest::default();
        request.bucket = bucket.clone();
        request.key = key.clone();
        request.part_number = qs.part_number;
        request.response_cache_control = qs.override_cache_control;
        request.response_content_disposition = qs.override_content_dispositon;
        request.response_content_encoding = qs.override_content_encoding;
        request.response_content_language = qs.override_content_language;
        request.response_content_type = qs.override_content_type;
        request.response_expires = qs.override_expires;
        request.version_id = qs.version_id;
        request.expected_bucket_owner = header_string_opt(
            "x-amz-expected-bucket-owner",
            &ctx.headers,
        );
        request.request_payer = header_string_opt("x-amz-request-payer", &ctx.headers);
        request.if_match = header_string_opt("if-match", &ctx.headers);
        request.if_modified_since = header_string_opt("if-modified-since", &ctx.headers);
        request.if_none_match = header_string_opt("if-none-match", &ctx.headers);
        request.if_unmodified_since = header_string_opt("if-unmodified-since", &ctx.headers);
        request.range = header_string_opt("range", &ctx.headers);
        request.sse_customer_algorithm = header_string_opt(
            "x-amz-server-side-encryption-customer-algorithm",
            &ctx.headers,
        );
        request.sse_customer_key = header_string_opt(
            "x-amz-server-side-encryption-customer-key",
            &ctx.headers,
        );
        request.sse_customer_key_md5 = header_string_opt(
            "x-amz-server-side-encryption-customer-key-md5",
            &ctx.headers,
        );
        Ok(Operation::GetObject(request))
    }
}

impl ObjectGetHandler {
    /// The answer to an object that was found.
    pub fn respond(output: GetObjectOutput) -> (response: Response)
        ensures
            response@ == get_object_response(output@),
    {
        let ghost plain = get_object_headers(output@);
        let mut response = Response::new(200).header_opt(
            "accept-ranges",
            output.accept_ranges,
        ).header_opt(
            "cache-control",
            output.cache_control,
        ).header_opt(
            "content-disposition",
            output.content_disposition,
        ).header_opt(
            "content-encoding",
            output.content_encoding,
        ).header_opt(
            "content-language",
            output.content_language,
        ).header_opt(
            "content-length",
            opt_integer_to_text(output.content_length),
        ).header_opt(
            "content-range",
            output.content_range,
        ).header_opt(
            "content-type",
            output.content_type,
        ).header_opt(
            "etag",
            output.e_tag,
        ).header_opt(
            "expires",
            output.expires,
        ).header_opt(
            "last-modified",
            output.last_modified,
        ).header_opt(
            "x-amz-server-side-encryption-bucket-key-enabled",
            opt_flag(output.bucket_key_enabled),
        ).header_opt(
            "x-amz-expiration",
            output.expiration,
        ).header_opt(
            "x-amz-delete-marker",
            opt_flag(output.delete_marker),
        ).header_opt(
            "x-amz-missing-meta",
            opt_integer_to_text(output.missing_meta),
        ).header_opt(
            "x-amz-restore",
            output.restore,
        ).header_opt(
            "x-amz-object-lock-mode",
            output.object_lock_mode,
        ).header_opt(
            "x-amz-object-lock-legal-hold",
            output.object_lock_legal_hold_status,
        ).header_opt(
            "x-amz-object-lock-retain-until-date",
            output.object_lock_retain_until_date,
        ).header_opt(
            "x-amz-mp-parts-count",
            opt_integer_to_text(output.parts_count),
        ).header_opt(
            "x-amz-replication-status",
            output.replication_status,
        ).header_opt(
            "x-amz-request-charged",
            output.request_charged,
        ).header_opt(
            "x-amz-server-side-encryption-customer-algorithm",
            output.sse_customer_algorithm,
        ).header_opt(
            "x-amz-server-side-encryption-customer-key-md5",
            output.sse_customer_key_md5,
        ).header_opt(
            "x-amz-server-side-encryption-aws-kms-key-id",
            output.ssekms_key_id,
        ).header_opt(
            "x-amz-server-side-encryption",
            output.server_side_encryption,
        ).header_opt(
            "x-amz-storage-class",
            output.storage_class,
        ).header_opt(
            "x-amz-tagging-count",
            opt_integer_to_text(output.tag_count),
        ).header_opt(
            "x-amz-version-id",
            output.version_id,
        ).header_opt(
            "x-amz-website-redirect-location",
            output.website_redirect_location,
        );
        assert(response@ == plain);
        match output.metadata {
            Some(metadata) => {
                let mut i: usize = 0;
                assert(meta_pairs(metadata@).take(0) =~= Seq::empty());
                while i < metadata.len()
                    invariant
                        i <= metadata@.len(),
                        response@ == (ResponseView {
                            headers: with_metadata(
                                plain.headers,
                                meta_pairs(metadata@).take(i as int),
                            ),
                            ..plain
                        }),
                    decreases metadata@.len() - i,
                {
                    let entry = &metadata[i];
                    proof {
                        let longer = meta_pairs(metadata@).take(i + 1);
                        assert(longer.drop_last() =~= meta_pairs(metadata@).take(i as int));
                        assert(longer.last() == entry@);
                    }
                    let mut name = String::from_str("x-amz-meta-");
                    name.append(entry.key.as_str());
                    match header_name(name.as_str()) {
                        Some(name) => {
                            if header_value_ok(entry.value.as_str()) {
                                response = response.insert(name, entry.value.clone());
                            }
                        },
                        None => {},
                    }
                    i = i + 1;
                }
                assert(meta_pairs(metadata@).take(i as int) =~= meta_pairs(metadata@));
                response
            },
            None => response,
        }
    }
}

} // verus!
