use wasmio::context::{Context, Operation, S3Handler, VisitorNil};
use wasmio::domain::BucketStorage;
use wasmio::errors::S3ErrorCodeKind;
use wasmio::handlers::bucket_create::BucketCreateHandler;
use wasmio::handlers::object_delete::ObjectDeleteHandler;
use wasmio::handlers::object_get::{ObjectGetHandler, ObjectGetQS};
use wasmio::handlers::object_list_v2::{ObjectListHandlerV2, ObjectListV2QS};
use wasmio::handlers::object_put::ObjectPutHandler;
use wasmio::mapping::S3Mapping;
use wasmio::path::S3Path;
use wasmio::request::{
    header_parse, header_parse_bool, header_string_opt, Field, HeaderLine, Headers, Method,
    Parameter, ParseError, Query,
};
use wasmio::response::Response;
use wasmio::state::{AppMapping, AppState, Application, S3State, StorageConfig};
use wasmio::storage::errors::{BucketStorageError, FSError};
use wasmio::storage::fs_storage::FSStorage;
use wasmio::storage::info::{DatabaseInfo, ElementInfo, MetaEntry, Timestamp};
use wasmio::types::{
    CommonPrefix, CreateBucketConfiguration, CreateBucketOutput, CreateBucketRequest,
    DeleteObjectOutput, DeleteObjectRequest, GetObjectAttributesRequest, GetObjectOutput,
    GetObjectRequest, ListObjectsOutput, ListObjectsRequest, ListObjectsV2Output,
    ListObjectsV2Request, Object, Owner, PutObjectOutput, PutObjectRequest,
};

fn headers(lines: &[(&str, Option<&str>)]) -> Headers {
    Headers {
        lines: lines
            .iter()
            .map(|(name, value)| HeaderLine {
                name: name.to_string(),
                value: value.map(|text| text.to_string()),
            })
            .collect(),
    }
}

fn query(parameters: &[(&str, &str)]) -> Query {
    Query {
        parameters: parameters
            .iter()
            .map(|(key, value)| Parameter { key: key.to_string(), value: value.to_string() })
            .collect(),
    }
}

fn context(method: Method, path: &str, lines: &[(&str, Option<&str>)], parameters: &[(&str, &str)]) -> Context {
    Context::with_request_id(
        "01REQ".to_string(),
        method,
        path,
        headers(lines),
        query(parameters),
    )
    .unwrap()
}

fn lines(response: &Response) -> Vec<(&str, &str)> {
    response.headers.iter().map(|line| (line.name.as_str(), line.value.as_str())).collect()
}

fn mapping() -> S3Mapping<FSStorage> {
    let state = AppState::new(FSStorage::new("/data".to_string()));
    S3Mapping::new(S3State::from_state(&state))
}

fn buckets() -> BucketStorage<FSStorage> {
    BucketStorage::new(FSStorage::new("/data".to_string()))
}

fn element(name: &str, size: u64) -> ElementInfo {
    ElementInfo {
        name: name.to_string(),
        size,
        created_at: Timestamp { secs: 1714557600, nanos: 0 },
        last_modified: Timestamp { secs: 1714557660, nanos: 0 },
        checksum: format!("sum-of-{name}"),
        metadatas: Vec::new(),
    }
}

#[test]
fn headers_are_read_by_name() {
    let map = headers(&[
        ("content-length", Some("12")),
        ("x-amz-acl", Some("private")),
        ("x-amz-acl", Some("public")),
        ("x-odd", None),
        ("x-odd", Some("later")),
        ("x-flag", Some("true")),
        ("x-bad-flag", Some("yes")),
        ("x-bad-length", Some("12b")),
    ]);
    assert_eq!(header_string_opt("x-amz-acl", &map), Some("private".to_string()));
    assert_eq!(header_string_opt("x-odd", &map), None);
    assert_eq!(header_string_opt("x-none", &map), None);
    assert_eq!(header_string_opt("X-Amz-Acl", &map), None);
    assert_eq!(header_parse("content-length", &map), Ok(Some(12)));
    assert_eq!(header_parse("x-none", &map), Ok(None));
    assert_eq!(header_parse("x-odd", &map), Ok(None));
    assert_eq!(header_parse("x-bad-length", &map), Err(ParseError {}));
    assert_eq!(header_parse_bool("x-flag", &map), Some(true));
    assert_eq!(header_parse_bool("x-bad-flag", &map), None);
    assert_eq!(header_parse_bool("x-none", &map), None);
}

#[test]
fn a_parameter_given_twice_is_spoiled() {
    let q = query(&[("a", "1"), ("b", "x"), ("a", "2"), ("n", "-5"), ("f", "false")]);
    assert!(matches!(q.text("a"), Field::Spoiled));
    assert!(matches!(q.text("b"), Field::Given(text) if text == "x"));
    assert!(matches!(q.text("c"), Field::Absent));
    assert!(matches!(q.integer("n"), Field::Given(-5)));
    assert!(matches!(q.integer("b"), Field::Spoiled));
    assert!(matches!(q.integer("a"), Field::Spoiled));
    assert!(matches!(q.integer("c"), Field::Absent));
    assert!(matches!(q.flag("f"), Field::Given(false)));
    assert!(matches!(q.flag("n"), Field::Spoiled));
    assert!(matches!(q.flag("c"), Field::Absent));
}

#[test]
fn listing_parameters_are_read() {
    let qs = ObjectListV2QS::from_query(&query(&[
        ("list-type", "2"),
        ("prefix", "notes/"),
        ("max-keys", "10"),
        ("fetch-owner", "true"),
        ("unknown", "x"),
        ("unknown", "y"),
    ]))
    .unwrap();
    assert_eq!(qs.list_type, 2);
    assert_eq!(qs.prefix.as_deref(), Some("notes/"));
    assert_eq!(qs.max_keys, Some(10));
    assert_eq!(qs.fetch_owner, Some(true));
    assert_eq!(qs.delimiter, None);
    assert_eq!(qs.start_after, None);

    assert!(ObjectListV2QS::from_query(&query(&[])).is_none());
    assert!(ObjectListV2QS::from_query(&query(&[("list-type", "two")])).is_none());
    assert!(ObjectListV2QS::from_query(&query(&[("list-type", "128")])).is_none());
    assert!(ObjectListV2QS::from_query(&query(&[("list-type", "-129")])).is_none());
    assert_eq!(ObjectListV2QS::from_query(&query(&[("list-type", "-128")])).unwrap().list_type, -128);
    assert!(ObjectListV2QS::from_query(&query(&[("list-type", "2"), ("list-type", "2")])).is_none());
    assert!(ObjectListV2QS::from_query(&query(&[("list-type", "2"), ("max-keys", "many")])).is_none());
    assert!(ObjectListV2QS::from_query(&query(&[("list-type", "2"), ("fetch-owner", "1")])).is_none());
    assert!(ObjectListV2QS::from_query(&query(&[("list-type", "2"), ("prefix", "a"), ("prefix", "b")])).is_none());
}

#[test]
fn getting_parameters_are_read() {
    let qs = ObjectGetQS::from_query(&query(&[
        ("response-content-type", "text/plain"),
        ("partNumber", "3"),
        ("versionId", "v1"),
    ]))
    .unwrap();
    assert_eq!(qs.override_content_type.as_deref(), Some("text/plain"));
    assert_eq!(qs.part_number, Some(3));
    assert_eq!(qs.version_id.as_deref(), Some("v1"));
    assert_eq!(qs.override_expires, None);
    assert!(ObjectGetQS::from_query(&query(&[])).is_some());
    assert!(ObjectGetQS::from_query(&query(&[("partNumber", "x")])).is_none());
    assert!(ObjectGetQS::from_query(&query(&[("versionId", "a"), ("versionId", "b")])).is_none());
}

#[test]
fn the_context_names_its_resource() {
    let root = context(Method::Get, "/", &[], &[]);
    assert_eq!(root.resource(), "/");
    assert!(root.expect_root().is_ok());
    assert_eq!(root.expect_bucket().unwrap_err().message(), "You should have a Bucket here.");
    assert_eq!(root.expect_object().unwrap_err().message(), "You should have an Object here.");
    assert_eq!(root.expect_object().unwrap_err().kind(), S3ErrorCodeKind::InvalidRequest);

    let bucket = context(Method::Get, "/abc", &[], &[]);
    assert_eq!(bucket.resource(), "/abc/");
    assert_eq!(bucket.expect_bucket().unwrap(), "abc");
    assert_eq!(bucket.expect_root().unwrap_err().message(), "You should have a Root here.");
    assert_eq!(bucket.request_id(), "01REQ");
    assert_eq!(bucket.method(), Method::Get);

    let object = context(Method::Put, "/abc/dir/a%20b", &[], &[]);
    assert_eq!(object.resource(), "/abc/dir/a b");
    let (name, key) = object.expect_object().unwrap();
    assert_eq!((name.as_str(), key.as_str()), ("abc", "dir/a b"));
    assert_eq!(*object.path(), S3Path::Object { bucket: "abc".to_string(), key: "dir/a b".to_string() });

    let refused =
        Context::with_request_id("01REQ".to_string(), Method::Get, "/AB", headers(&[]), query(&[]))
            .unwrap_err();
    assert_eq!(refused.code(), "InvalidBucketName");
    assert_eq!(refused.body().request_id, "01REQ");
    assert_eq!(refused.body().ressource, "/AB");
}

#[test]
fn each_request_has_its_handler() {
    let list = [("list-type", "2")];
    let cases: [(Method, &str, &[(&str, &str)], [bool; 5]); 12] = [
        (Method::Put, "/abc", &[], [true, false, false, false, false]),
        (Method::Put, "/abc/key", &[], [false, true, false, false, false]),
        (Method::Delete, "/abc/key", &[], [false, false, true, false, false]),
        (Method::Get, "/abc", &list, [false, false, false, true, false]),
        (Method::Get, "/abc/key", &[], [false, false, false, false, true]),
        (Method::Get, "/abc/key", &list, [false, false, false, false, true]),
        (Method::Get, "/abc", &[], [false; 5]),
        (Method::Get, "/abc", &[("list-type", "1")], [false; 5]),
        (Method::Get, "/", &[], [false; 5]),
        (Method::Delete, "/abc", &[], [false; 5]),
        (Method::Post, "/abc/key", &[], [false; 5]),
        (Method::Head, "/abc/key", &[], [false; 5]),
    ];
    for (method, path, parameters, expected) in cases {
        let ctx = context(method, path, &[], parameters);
        let found = [
            BucketCreateHandler.is_match(&ctx),
            ObjectPutHandler.is_match(&ctx),
            ObjectDeleteHandler.is_match(&ctx),
            ObjectListHandlerV2.is_match(&ctx),
            ObjectGetHandler.is_match(&ctx),
        ];
        assert_eq!(found, expected, "{method:?} {path}");
        let taken = S3Mapping::<FSStorage>::handlers().is_match(&ctx);
        assert_eq!(taken, expected.contains(&true), "{method:?} {path}");
        let routed = mapping().route(&ctx);
        match expected.iter().position(|hit| *hit) {
            Some(0) => assert!(matches!(routed, Ok(Operation::CreateBucket(_)))),
            Some(1) => assert!(matches!(routed, Ok(Operation::PutObject(_)))),
            Some(2) => assert!(matches!(routed, Ok(Operation::DeleteObject(_)))),
            Some(3) => assert!(matches!(routed, Ok(Operation::ListObjectsV2(_)))),
            Some(4) => assert!(matches!(routed, Ok(Operation::GetObject(_)))),
            _ => {
                let error = routed.unwrap_err();
                assert_eq!(error.code(), "InvalidRequest");
                assert!(error.kind().message().starts_with("This pattern has not been implemented yet"));
                assert_eq!(error.body().request_id, "01REQ");
                assert_eq!(error.body().ressource, ctx.resource());
            }
        }
    }
}

#[test]
fn the_end_of_the_chain_takes_nothing() {
    let ctx = context(Method::Put, "/abc", &[], &[]);
    assert!(!VisitorNil.is_match(&ctx));
    let refused = VisitorNil.handle(&ctx).unwrap_err();
    assert_eq!(refused.kind(), S3ErrorCodeKind::InvalidRequest);
    assert_eq!(
        refused.message(),
        "This pattern has not been implemented yet, feel free to drop an issue at `https://github.com/miaxos/wasmio`."
    );
}

#[test]
fn the_first_handler_that_takes_a_request_handles_it() {
    let ctx = context(Method::Put, "/abc", &[], &[]);
    let one = VisitorNil.with(ObjectPutHandler).with(BucketCreateHandler);
    let other = VisitorNil.with(BucketCreateHandler).with(ObjectPutHandler);
    assert!(one.is_match(&ctx));
    assert!(other.is_match(&ctx));
    assert!(matches!(one.handle(&ctx), Ok(Operation::CreateBucket(_))));
    assert!(matches!(other.handle(&ctx), Ok(Operation::CreateBucket(_))));
    // a handler that is asked although the request is not its own refuses it
    let alone = VisitorNil.with(ObjectPutHandler);
    assert!(!alone.is_match(&ctx));
    assert!(alone.handle(&ctx).is_err());
    assert_eq!(
        ObjectPutHandler.handle(&ctx).unwrap_err().message(),
        "You should have an Object here."
    );
}

#[test]
fn a_bucket_is_asked_for_and_answered() {
    let ctx = context(Method::Put, "/new-bucket", &[], &[]);
    let request = match BucketCreateHandler.handle(&ctx).unwrap() {
        Operation::CreateBucket(request) => request,
        other => panic!("{other:?}"),
    };
    assert_eq!(request.bucket, "new-bucket");
    assert_eq!(request.acl, None);

    assert!(BucketCreateHandler::configuration(Some(CreateBucketConfiguration {})).is_ok());
    let malformed = BucketCreateHandler::configuration(None).unwrap_err();
    assert_eq!(malformed.kind(), S3ErrorCodeKind::MalformedXML);
    assert_eq!(malformed.status_code(), 400);

    let domain = buckets();
    assert_eq!(domain.create_new_bucket(request), "new-bucket");
    let made = DatabaseInfo::new_database_at("new-bucket".to_string(), Timestamp { secs: 1, nanos: 0 });
    let output = domain.create_new_bucket_done(Ok(made)).unwrap();
    assert_eq!(output.location.as_deref(), Some("/new-bucket"));
    let response = BucketCreateHandler::respond(output);
    assert_eq!(response.status, 200);
    assert_eq!(lines(&response), vec![("location", "/new-bucket")]);
    assert_eq!(response.body, "");

    assert_eq!(
        domain.create_new_bucket_done(Err(FSError::AlreadyExist)).unwrap_err(),
        BucketStorageError::DatabaseAlreadyExist
    );
    assert_eq!(
        domain.create_new_bucket_done(Err(FSError::Other)).unwrap_err(),
        BucketStorageError::Unknown
    );
}

#[test]
fn an_object_is_put() {
    let ctx = context(
        Method::Put,
        "/abc/file.txt",
        &[
            ("content-length", Some("5")),
            ("content-type", Some("text/plain")),
            ("cache-control", Some("no-cache")),
            ("x-amz-acl", Some("private")),
            ("x-amz-storage-class", Some("STANDARD")),
        ],
        &[],
    );
    let request = match ObjectPutHandler.handle(&ctx).unwrap() {
        Operation::PutObject(request) => request,
        other => panic!("{other:?}"),
    };
    assert_eq!(request.bucket, "abc");
    assert_eq!(request.key, "file.txt");
    assert!(request.body.is_some());
    assert_eq!(request.content_length, Some(5));
    assert_eq!(request.content_type.as_deref(), Some("text/plain"));
    assert_eq!(request.cache_control.as_deref(), Some("no-cache"));
    assert_eq!(request.acl.as_deref(), Some("private"));
    assert_eq!(request.storage_class.as_deref(), Some("STANDARD"));
    assert_eq!(request.content_encoding, None);
    assert_eq!(request.metadata, None);

    let domain = buckets();
    let asked = domain.put_object(request).unwrap();
    assert_eq!((asked.bucket.as_str(), asked.key.as_str()), ("abc", "file.txt"));
    assert!(asked.metadatas.is_empty());

    let output = domain.put_object_done(Ok(element("file.txt", 5))).unwrap();
    assert_eq!(output.e_tag.as_deref(), Some("unimplemented"));
    let response = ObjectPutHandler::respond(output);
    assert_eq!(response.status, 200);
    assert_eq!(lines(&response), vec![("etag", "unimplemented")]);

    assert_eq!(domain.put_object_done(Err(FSError::NoDatabase)).unwrap_err(), BucketStorageError::NoBucket);
    assert_eq!(domain.put_object(PutObjectRequest::default()).unwrap_err(), BucketStorageError::Unknown);

    let bad = context(Method::Put, "/abc/file.txt", &[("content-length", Some("five"))], &[]);
    let refused = ObjectPutHandler.handle(&bad).unwrap_err();
    assert_eq!(refused.kind(), S3ErrorCodeKind::InvalidRequest);
    assert_eq!(refused.message(), "Invalid header: content-length");
}

#[test]
fn every_header_of_a_put_answer() {
    let output = PutObjectOutput {
        bucket_key_enabled: Some(false),
        e_tag: Some("tag".to_string()),
        expiration: Some("soon".to_string()),
        request_charged: Some("requester".to_string()),
        sse_customer_algorithm: Some("AES256".to_string()),
        sse_customer_key_md5: Some("md5".to_string()),
        ssekms_encryption_context: Some("ctx".to_string()),
        ssekms_key_id: Some("kms".to_string()),
        server_side_encryption: Some("aws:kms".to_string()),
        version_id: Some("v1".to_string()),
        checksum: Some("sum".to_string()),
    };
    let response = ObjectPutHandler::respond(output);
    assert_eq!(
        lines(&response),
        vec![
            ("etag", "tag"),
            ("x-amz-expiration", "soon"),
            ("x-amz-content-sha256", "sum"),
            ("x-amz-server-side-encryption", "aws:kms"),
            ("x-amz-version-id", "v1"),
            ("x-amz-server-side-encryption-customer-algorithm", "AES256"),
            ("x-amz-server-side-encryption-customer-key-md5", "md5"),
            ("x-amz-server-side-encryption-aws-kms-key-id", "kms"),
            ("x-amz-server-side-encryption-context", "ctx"),
            ("x-amz-server-side-encryption-bucket-key-enabled", "false"),
        ]
    );
}

#[test]
fn an_object_is_deleted() {
    let ctx = context(
        Method::Delete,
        "/abc/file.txt",
        &[
            ("x-amz-mfa", Some("serial 123")),
            ("x-amz-bypass-governance-retention", Some("true")),
            ("x-amz-expected-bucket-owner", Some("me")),
        ],
        &[],
    );
    let request = match ObjectDeleteHandler.handle(&ctx).unwrap() {
        Operation::DeleteObject(request) => request,
        other => panic!("{other:?}"),
    };
    assert_eq!(request.bucket, "abc");
    assert_eq!(request.key, "file.txt");
    assert_eq!(request.mfa.as_deref(), Some("serial 123"));
    assert_eq!(request.bypass_governance_retention, Some(true));
    assert_eq!(request.expected_bucket_owner.as_deref(), Some("me"));
    assert_eq!(request.request_payer, None);
    assert_eq!(request.version_id, None);

    let domain = buckets();
    let asked = domain.delete_object(request);
    assert_eq!((asked.bucket.as_str(), asked.key.as_str()), ("abc", "file.txt"));
    let response = ObjectDeleteHandler::respond(domain.delete_object_done(Ok(())).unwrap());
    assert_eq!(response.status, 200);
    assert!(response.headers.is_empty());
    for failure in [FSError::Other, FSError::NoDatabase, FSError::AlreadyExist] {
        assert_eq!(domain.delete_object_done(Err(failure)).unwrap_err(), BucketStorageError::Unknown);
    }

    let output = DeleteObjectOutput {
        delete_marker: Some(true),
        request_charged: Some("requester".to_string()),
        version_id: Some("v2".to_string()),
    };
    assert_eq!(
        lines(&ObjectDeleteHandler::respond(output)),
        vec![
            ("x-amz-version-id", "v2"),
            ("x-amz-delete-marker", "true"),
            ("x-amz-request-charged", "requester"),
        ]
    );
}

#[test]
fn a_bucket_is_listed() {
    let ctx = context(
        Method::Get,
        "/abc",
        &[("x-amz-request-payer", Some("requester"))],
        &[("list-type", "2"), ("prefix", "a"), ("start-after", "b"), ("max-keys", "5")],
    );
    let request = match ObjectListHandlerV2.handle(&ctx).unwrap() {
        Operation::ListObjectsV2(request) => request,
        other => panic!("{other:?}"),
    };
    assert_eq!(request.bucket, "abc");
    assert_eq!(request.prefix.as_deref(), Some("a"));
    assert_eq!(request.start_after.as_deref(), Some("b"));
    assert_eq!(request.max_keys, Some(5));
    assert_eq!(request.request_payer.as_deref(), Some("requester"));
    assert_eq!(request.expected_bucket_owner, None);

    let domain = buckets();
    assert_eq!(domain.list_object_v2(request), "abc");
    let read = vec![Ok(element("one", 3)), Err(FSError::Serde), Ok(element("t<wo", 0))];
    let output = domain.list_object_v2_done(Ok(read)).unwrap();
    let contents = output.contents.as_ref().unwrap();
    assert_eq!(contents.len(), 2);
    assert_eq!(contents[0].key.as_deref(), Some("one"));
    assert_eq!(contents[0].size, Some(3));
    assert_eq!(contents[0].e_tag.as_deref(), Some("sum-of-one"));
    assert_eq!(contents[0].last_modified.as_deref(), Some("2024-05-01T10:01:00+00:00"));
    assert!(contents[0].owner.is_none());
    assert_eq!(contents[1].key.as_deref(), Some("t<wo"));
    assert_eq!(output.key_count, None);

    let response = ObjectListHandlerV2::respond(output);
    assert_eq!(response.status, 200);
    assert_eq!(lines(&response), vec![("x-amz-request-charged", "unimplemented")]);
    assert_eq!(
        response.body,
        "<?xml version=\"1.0\" encoding=\"UTF-8\"?>\n<ListBucketResult><CommonPrefixes/>\
<Contents><ETag>sum-of-one</ETag><Key>one</Key><LastModified>2024-05-01T10:01:00+00:00</LastModified><Owner/><Size>3</Size><StorageClass/></Contents>\
<Contents><ETag>sum-of-t&lt;wo</ETag><Key>t&lt;wo</Key><LastModified>2024-05-01T10:01:00+00:00</LastModified><Owner/><Size>0</Size><StorageClass/></Contents>\
<ContinuationToken/><Delimiter/><EncodingType/><IsTruncated/><KeyCount/><MaxKeys/><Name/><NextContinuationToken/><Prefix/><StartAfter/></ListBucketResult>\n"
    );

    assert_eq!(domain.list_object_v2_done(Err(FSError::Other)).unwrap_err(), BucketStorageError::Unknown);
    let empty = domain.list_object_v2_done(Ok(Vec::new())).unwrap();
    assert!(empty.contents.as_ref().unwrap().is_empty());
}

#[test]
fn a_full_listing_as_a_document() {
    let output = ListObjectsV2Output {
        common_prefixes: Some(vec![
            CommonPrefix { prefix: Some("notes/".to_string()) },
            CommonPrefix { prefix: None },
        ]),
        contents: Some(vec![Object {
            e_tag: Some("t".to_string()),
            key: Some("k".to_string()),
            last_modified: None,
            owner: Some(Owner { display_name: Some("me".to_string()), id: None }),
            size: Some(-1),
            storage_class: Some("STANDARD".to_string()),
        }]),
        continuation_token: Some("c".to_string()),
        delimiter: Some("/".to_string()),
        encoding_type: Some("url".to_string()),
        is_truncated: Some(false),
        key_count: Some(1),
        max_keys: Some(1000),
        name: Some("abc".to_string()),
        next_continuation_token: Some("n".to_string()),
        prefix: Some("".to_string()),
        start_after: Some("a&b".to_string()),
    };
    assert_eq!(
        output.to_xml(),
        "<ListBucketResult><CommonPrefixes><Prefix>notes/</Prefix></CommonPrefixes><CommonPrefixes><Prefix/></CommonPrefixes>\
<Contents><ETag>t</ETag><Key>k</Key><LastModified/><Owner><DisplayName>me</DisplayName><ID/></Owner><Size>-1</Size><StorageClass>STANDARD</StorageClass></Contents>\
<ContinuationToken>c</ContinuationToken><Delimiter>/</Delimiter><EncodingType>url</EncodingType><IsTruncated>false</IsTruncated><KeyCount>1</KeyCount><MaxKeys>1000</MaxKeys><Name>abc</Name><NextContinuationToken>n</NextContinuationToken><Prefix/><StartAfter>a&amp;b</StartAfter></ListBucketResult>"
    );
    let bare = ListObjectsV2Output::default();
    assert_eq!(
        bare.to_xml(),
        "<ListBucketResult><CommonPrefixes/><Contents/><ContinuationToken/><Delimiter/><EncodingType/><IsTruncated/><KeyCount/><MaxKeys/><Name/><NextContinuationToken/><Prefix/><StartAfter/></ListBucketResult>"
    );
}

#[test]
fn an_object_is_got() {
    let ctx = context(
        Method::Get,
        "/abc/file.txt",
        &[("if-match", Some("tag")), ("range", Some("bytes=0-4"))],
        &[("response-content-type", "text/plain"), ("partNumber", "2")],
    );
    let request = match ObjectGetHandler.handle(&ctx).unwrap() {
        Operation::GetObject(request) => request,
        other => panic!("{other:?}"),
    };
    assert_eq!(request.bucket, "abc");
    assert_eq!(request.key, "file.txt");
    assert_eq!(request.if_match.as_deref(), Some("tag"));
    assert_eq!(request.range.as_deref(), Some("bytes=0-4"));
    assert_eq!(request.response_content_type.as_deref(), Some("text/plain"));
    assert_eq!(request.part_number, Some(2));
    assert_eq!(request.version_id, None);
    assert_eq!(request.if_none_match, None);

    let bad = context(Method::Get, "/abc/file.txt", &[], &[("partNumber", "two")]);
    let refused = ObjectGetHandler.handle(&bad).unwrap_err();
    assert_eq!(refused.kind(), S3ErrorCodeKind::InvalidRequest);
    assert_eq!(refused.message(), "Invalid query string");

    let domain = buckets();
    let asked = domain.get_object(request);
    assert_eq!((asked.bucket.as_str(), asked.key.as_str()), ("abc", "file.txt"));

    let mut found = element("file.txt", 5);
    found.metadatas = vec![
        MetaEntry { key: "Color".to_string(), value: "red".to_string() },
        MetaEntry { key: "bad key".to_string(), value: "x".to_string() },
        MetaEntry { key: "shape".to_string(), value: "line\nbreak".to_string() },
        MetaEntry { key: "color".to_string(), value: "blue".to_string() },
        MetaEntry { key: "tab".to_string(), value: "a\tb".to_string() },
    ];
    let output = domain.get_object_done(Ok(Some(found))).unwrap();
    assert_eq!(output.content_length, Some(5));
    assert_eq!(output.e_tag.as_deref(), Some("sum-of-file.txt"));
    assert_eq!(output.last_modified.as_deref(), Some("2024-05-01T10:01:00+00:00"));
    assert_eq!(output.content_type, None);
    let response = ObjectGetHandler::respond(output);
    assert_eq!(response.status, 200);
    assert_eq!(
        lines(&response),
        vec![
            ("content-length", "5"),
            ("etag", "sum-of-file.txt"),
            ("last-modified", "2024-05-01T10:01:00+00:00"),
            ("x-amz-meta-color", "blue"),
            ("x-amz-meta-tab", "a\tb"),
        ]
    );

    assert_eq!(domain.get_object_done(Ok(None)).unwrap_err(), BucketStorageError::NoKey);
    assert_eq!(domain.get_object_done(Err(FSError::Serde)).unwrap_err(), BucketStorageError::Unknown);
    assert_eq!(domain.get_object_done(Err(FSError::NoDatabase)).unwrap_err(), BucketStorageError::NoBucket);
}

#[test]
fn every_header_of_a_get_answer() {
    let text = |value: &str| Some(value.to_string());
    let output = GetObjectOutput {
        accept_ranges: text("bytes"),
        bucket_key_enabled: Some(true),
        cache_control: text("cc"),
        content_disposition: text("cd"),
        content_encoding: text("ce"),
        content_language: text("cl"),
        content_length: Some(42),
        content_range: text("cr"),
        content_type: text("ct"),
        delete_marker: Some(false),
        e_tag: text("tag"),
        expiration: text("exp"),
        expires: text("never"),
        last_modified: text("then"),
        metadata: None,
        missing_meta: Some(0),
        object_lock_legal_hold_status: text("ON"),
        object_lock_mode: text("mode"),
        object_lock_retain_until_date: text("date"),
        parts_count: Some(2),
        replication_status: text("rs"),
        request_charged: text("rc"),
        restore: text("re"),
        sse_customer_algorithm: text("alg"),
        sse_customer_key_md5: text("md5"),
        ssekms_key_id: text("kms"),
        server_side_encryption: text("sse"),
        storage_class: text("sc"),
        tag_count: Some(-3),
        version_id: text("v"),
        website_redirect_location: text("/else"),
    };
    assert_eq!(
        lines(&ObjectGetHandler::respond(output)),
        vec![
            ("accept-ranges", "bytes"),
            ("cache-control", "cc"),
            ("content-disposition", "cd"),
            ("content-encoding", "ce"),
            ("content-language", "cl"),
            ("content-length", "42"),
            ("content-range", "cr"),
            ("content-type", "ct"),
            ("etag", "tag"),
            ("expires", "never"),
            ("last-modified", "then"),
            ("x-amz-server-side-encryption-bucket-key-enabled", "true"),
            ("x-amz-expiration", "exp"),
            ("x-amz-delete-marker", "false"),
            ("x-amz-missing-meta", "0"),
            ("x-amz-restore", "re"),
            ("x-amz-object-lock-mode", "mode"),
            ("x-amz-object-lock-legal-hold", "ON"),
            ("x-amz-object-lock-retain-until-date", "date"),
            ("x-amz-mp-parts-count", "2"),
            ("x-amz-replication-status", "rs"),
            ("x-amz-request-charged", "rc"),
            ("x-amz-server-side-encryption-customer-algorithm", "alg"),
            ("x-amz-server-side-encryption-customer-key-md5", "md5"),
            ("x-amz-server-side-encryption-aws-kms-key-id", "kms"),
            ("x-amz-server-side-encryption", "sse"),
            ("x-amz-storage-class", "sc"),
            ("x-amz-tagging-count", "-3"),
            ("x-amz-version-id", "v"),
            ("x-amz-website-redirect-location", "/else"),
        ]
    );
}

#[test]
fn a_header_is_set_in_place_of_its_name() {
    let response = Response::new(204)
        .header("a", "1".to_string())
        .header("b", "2".to_string())
        .header("a", "3".to_string())
        .header_opt("c", None)
        .insert("a".to_string(), "4".to_string())
        .body("done".to_string());
    assert_eq!(response.status, 204);
    assert_eq!(lines(&response), vec![("b", "2"), ("a", "4")]);
    assert_eq!(response.body, "done");
}

#[test]
fn a_storage_failure_is_told_for_the_request() {
    let ctx = context(Method::Get, "/abc/file.txt", &[], &[]);
    let failure = mapping().fail(&ctx, BucketStorageError::NoKey);
    let response = failure.into_response();
    assert_eq!(response.status, 500);
    assert_eq!(lines(&response), vec![("content-type", "application/xml")]);
    assert_eq!(
        response.body,
        "<?xml version=\"1.0\" encoding=\"UTF-8\"?>\n<Error><code>InternalError</code><message>An internal error occurred. Try again.</message><ressource>/abc/file.txt</ressource><request_id>01REQ</request_id></Error>\n"
    );
}

#[test]
fn the_application_is_put_together() {
    let config = StorageConfig { path: "public/data".to_string() };
    let application = Application::new(config.storage());
    let state = application.into_state();
    assert_eq!(state.storage.base_path(), "public/data");
    let routes = AppMapping::new(state.clone());
    let s3 = routes.s3_state();
    assert_eq!(s3.bucket_loader.backend().base_path(), "public/data");
    assert_eq!(AppMapping::greeting(), "hi mom!");
    let mapping = S3Mapping::new(s3);
    assert_eq!(mapping.state().bucket_loader.backend().database_path("abc"), "public/data/abc");
}

#[test]
fn requests_start_empty() {
    assert_eq!(CreateBucketRequest::default().bucket, "");
    assert!(CreateBucketOutput::default().location.is_none());
    assert!(DeleteObjectRequest::default().version_id.is_none());
    assert!(GetObjectRequest::default().range.is_none());
    assert!(GetObjectAttributesRequest::default().expected_attributes.is_empty());
    assert!(ListObjectsRequest::default().marker.is_none());
    assert!(ListObjectsOutput::default().contents.is_none());
    assert!(ListObjectsV2Request::default().fetch_owner.is_none());
    assert!(Object::default().key.is_none());
    assert!(Owner::default().id.is_none());
    assert!(CommonPrefix::default().prefix.is_none());
    assert!(PutObjectRequest::default().body.is_none());
}

#[test]
fn a_request_gets_an_identifier_of_its_own() {
    let taken = Context::new(Method::Get, "/abc/key", headers(&[]), query(&[])).unwrap();
    assert_eq!(taken.request_id().len(), 26);
    assert!(taken
        .request_id()
        .chars()
        .all(|c| "0123456789ABCDEFGHJKMNPQRSTVWXYZ".contains(c)));
    assert_eq!(taken.resource(), "/abc/key");
    assert_eq!(taken.method(), Method::Get);

    let refused = Context::new(Method::Get, "asd", headers(&[]), query(&[])).unwrap_err();
    assert_eq!(refused.code(), "InvalidURI");
    assert_eq!(refused.body().request_id.len(), 26);
    assert_eq!(refused.body().ressource, "asd");
}
