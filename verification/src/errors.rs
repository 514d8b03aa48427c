//! The closed set of protocol errors, and how each is shown to a client.

use crate::response::{Response, ResponseView};
use crate::storage::errors::BucketStorageError;
use crate::xml::{document, element, into_document, push_element};
use vstd::prelude::*;
use vstd::string::*;

verus! {

/// The kinds of error a client can be answered with.
#[derive(Debug, Clone, Copy, PartialEq, Eq, Structural)]
#[allow(clippy::upper_case_acronyms)]
#[non_exhaustive]
pub enum S3ErrorCodeKind {
    /// The specified bucket is not valid.
    InvalidBucketName,
    /// An internal error occurred. Try again.
    InternalError,
    /// Couldn't parse the specified URI.
    InvalidURI,
    /// Your key is too long.
    KeyTooLongError,
    /// The request was understood but cannot be served as it stands.
    InvalidRequest,
    /// The XML sent with the request was not well formed.
    MalformedXML,
}

impl S3ErrorCodeKind {
    /// The HTTP status of the kind: 500 for `InternalError`, 400 for the rest.
    pub open spec fn spec_status_code(self) -> u16 {
        if self == S3ErrorCodeKind::InternalError {
            500
        } else {
            400
        }
    }

    /// The fixed message of the kind.
    pub open spec fn spec_message(self) -> Seq<char> {
        match self {
            S3ErrorCodeKind::InvalidBucketName => "The specified bucket is not valid."@,
            S3ErrorCodeKind::InternalError => "An internal error occurred. Try again."@,
            S3ErrorCodeKind::InvalidRequest => "Invalid Request"@,
            S3ErrorCodeKind::InvalidURI => "Couldn't parse the specified URI."@,
            S3ErrorCodeKind::KeyTooLongError => "Your key is too long"@,
            S3ErrorCodeKind::MalformedXML => "The XML that you provided was not well formed or did not validate against our published schema."@,
        }
    }

    /// The name of the kind, as it stands in the `code` element of an error body.
    pub open spec fn spec_code(self) -> Seq<char> {
        match self {
            S3ErrorCodeKind::InvalidBucketName => "InvalidBucketName"@,
            S3ErrorCodeKind::InternalError => "InternalError"@,
            S3ErrorCodeKind::InvalidRequest => "InvalidRequest"@,
            S3ErrorCodeKind::InvalidURI => "InvalidURI"@,
            S3ErrorCodeKind::KeyTooLongError => "KeyTooLongError"@,
            S3ErrorCodeKind::MalformedXML => "MalformedXML"@,
        }
    }

    pub fn status_code(&self) -> (code: u16)
        ensures
            code == self.spec_status_code(),
    {
        match self {
            S3ErrorCodeKind::InvalidBucketName => 400,
            S3ErrorCodeKind::InternalError => 500,
            S3ErrorCodeKind::InvalidRequest => 400,
            S3ErrorCodeKind::InvalidURI => 400,
            S3ErrorCodeKind::KeyTooLongError => 400,
            S3ErrorCodeKind::MalformedXML => 400,
        }
    }

    pub fn message(&self) -> (text: &'static str)
        ensures
            text@ == self.spec_message(),
    {
        match self {
            S3ErrorCodeKind::InvalidBucketName => "The specified bucket is not valid.",
            S3ErrorCodeKind::InternalError => "An internal error occurred. Try again.",
            S3ErrorCodeKind::InvalidRequest => "Invalid Request",
            S3ErrorCodeKind::InvalidURI => "Couldn't parse the specified URI.",
            S3ErrorCodeKind::KeyTooLongError => "Your key is too long",
            S3ErrorCodeKind::MalformedXML => "The XML that you provided was not well formed or did not validate against our published schema.",
        }
    }

    /// The name of the kind.
    pub fn code(&self) -> (text: &'static str)
        ensures
            text@ == self.spec_code(),
    {
        match self {
            S3ErrorCodeKind::InvalidBucketName => "InvalidBucketName",
            S3ErrorCodeKind::InternalError => "InternalError",
            S3ErrorCodeKind::InvalidRequest => "InvalidRequest",
            S3ErrorCodeKind::InvalidURI => "InvalidURI",
            S3ErrorCodeKind::KeyTooLongError => "KeyTooLongError",
            S3ErrorCodeKind::MalformedXML => "MalformedXML",
        }
    }

    /// The kind as it is shown: its name.
    pub fn to_string(&self) -> (text: String)
        ensures
            text@ == self.spec_code(),
    {
        self.code().to_owned()
    }
}

/// What an `S3Error` holds: its kind, and the message that replaces the
/// kind's own where there is one.
pub struct S3ErrorView {
    pub message: Option<Seq<char>>,
    pub kind: S3ErrorCodeKind,
}

impl S3ErrorView {
    /// The message shown to the client.
    pub open spec fn text(self) -> Seq<char> {
        match self.message {
            Some(message) => message,
            None => self.kind.spec_message(),
        }
    }

    /// An invalid request that is refused for `reason`.
    pub open spec fn refused(reason: Seq<char>) -> S3ErrorView {
        S3ErrorView { message: Some(reason), kind: S3ErrorCodeKind::InvalidRequest }
    }

    /// An error of the given kind with the kind's own message.
    pub open spec fn plain(kind: S3ErrorCodeKind) -> S3ErrorView {
        S3ErrorView { message: None, kind }
    }
}

/// A protocol error: a kind, with a message of its own or the kind's.
#[derive(Debug)]
pub struct S3Error {
    message: Option<String>,
    kind: S3ErrorCodeKind,
}

impl View for S3Error {
    type V = S3ErrorView;

    closed spec fn view(&self) -> S3ErrorView {
        S3ErrorView {
            message: match self.message {
                Some(message) => Some(message@),
                None => None,
            },
            kind: self.kind,
        }
    }
}

impl S3Error {
    pub fn message(&self) -> (text: &str)
        ensures
            text@ == self@.text(),
    {
        match &self.message {
            Some(message) => message.as_str(),
            None => self.kind.message(),
        }
    }

    pub fn status_code(&self) -> (code: u16)
        ensures
            code == self@.kind.spec_status_code(),
    {
        self.kind.status_code()
    }

    pub fn kind(&self) -> (kind: S3ErrorCodeKind)
        ensures
            kind == self@.kind,
    {
        self.kind
    }

    /// The error as it is shown: the name of its kind.
    pub fn to_string(&self) -> (text: String)
        ensures
            text@ == self@.kind.spec_code(),
    {
        self.kind.to_string()
    }

    /// An `InvalidRequest` that carries `reason` as its message.
    pub fn invalid_request(reason: &'static str) -> (error: Self)
        ensures
            error@ == S3ErrorView::refused(reason@),
    {
        Self { kind: S3ErrorCodeKind::InvalidRequest, message: Some(reason.to_owned()) }
    }

    /// An error of the given kind with the kind's own message.
    pub fn of_kind(kind: S3ErrorCodeKind) -> (error: Self)
        ensures
            error@ == S3ErrorView::plain(kind),
    {
        Self { kind, message: None }
    }
}

impl From<S3ErrorCodeKind> for S3Error {
    fn from(value: S3ErrorCodeKind) -> (error: Self) {
        Self { kind: value, message: None }
    }
}

impl vstd::std_specs::convert::FromSpecImpl<S3ErrorCodeKind> for S3Error {
    open spec fn obeys_from_spec() -> bool {
        true
    }

    closed spec fn from_spec(value: S3ErrorCodeKind) -> Self {
        Self { kind: value, message: None }
    }
}

impl From<BucketStorageError> for S3Error {
    /// A failure of the storage is an internal error to the client, whatever
    /// it was.
    fn from(value: BucketStorageError) -> (error: Self) {
        Self { kind: S3ErrorCodeKind::InternalError, message: None }
    }
}

impl vstd::std_specs::convert::FromSpecImpl<BucketStorageError> for S3Error {
    open spec fn obeys_from_spec() -> bool {
        true
    }

    closed spec fn from_spec(value: BucketStorageError) -> Self {
        Self { kind: S3ErrorCodeKind::InternalError, message: None }
    }
}

/// What the conversion from a failure of the storage gives: an internal
/// error with its own message.
pub proof fn lemma_from_storage(value: BucketStorageError)
    ensures
        <S3Error as vstd::std_specs::convert::FromSpec<BucketStorageError>>::from_spec(value)@
            == S3ErrorView::plain(S3ErrorCodeKind::InternalError),
{
}

/// What the conversion from a kind gives: the kind with its own message.
pub proof fn lemma_from_kind(kind: S3ErrorCodeKind)
    ensures
        <S3Error as vstd::std_specs::convert::FromSpec<S3ErrorCodeKind>>::from_spec(kind)@
            == S3ErrorView::plain(kind),
{
}

/// What an `S3HTTPError` holds.
pub struct S3HTTPErrorView {
    pub ressource: Seq<char>,
    pub request_id: Seq<char>,
    pub kind: S3ErrorView,
}

impl S3HTTPErrorView {
    /// The body that tells the client of the error.
    pub open spec fn body(self) -> ErrorView {
        ErrorView {
            code: self.kind.kind.spec_code(),
            message: self.kind.text(),
            ressource: self.ressource,
            request_id: self.request_id,
        }
    }

    /// The answer that the error is shown as: the status of its kind, the
    /// content type of XML, and its body as a document.
    pub open spec fn response(self) -> ResponseView {
        ResponseView {
            status: self.kind.kind.spec_status_code(),
            headers: seq![("content-type"@, "application/xml"@)],
            body: document(self.body().xml()),
        }
    }
}

/// A protocol error together with the resource and the request it arose for.
#[derive(Debug)]
pub struct S3HTTPError {
    /// The bucket or object that is involved in the error.
    ressource: String,
    /// ID of the request associated with the error.
    request_id: String,
    kind: S3Error,
}

impl View for S3HTTPError {
    type V = S3HTTPErrorView;

    closed spec fn view(&self) -> S3HTTPErrorView {
        S3HTTPErrorView {
            ressource: self.ressource@,
            request_id: self.request_id@,
            kind: self.kind@,
        }
    }
}

impl S3HTTPError {
    pub fn custom(ressource: &str, request_id: &str, kind: S3Error) -> (error: Self)
        ensures
            error@ == (S3HTTPErrorView {
                ressource: ressource@,
                request_id: request_id@,
                kind: kind@,
            }),
    {
        Self { request_id: request_id.to_owned(), ressource: ressource.to_owned(), kind }
    }

    /// The protocol error inside.
    pub fn kind(&self) -> (kind: &S3Error)
        ensures
            kind@ == self@.kind,
    {
        &self.kind
    }

    /// The name of the error's kind.
    pub fn code(&self) -> (text: &'static str)
        ensures
            text@ == self@.kind.kind.spec_code(),
    {
        self.kind.kind.code()
    }

    /// The error as it is shown: the name of its kind.
    pub fn to_string(&self) -> (text: String)
        ensures
            text@ == self@.kind.kind.spec_code(),
    {
        self.kind.to_string()
    }

    /// The body that tells the client of the error.
    pub fn body(&self) -> (body: Error)
        ensures
            body@ == self@.body(),
    {
        Error {
            code: self.kind.kind.code().to_owned(),
            message: self.kind.message().to_owned(),
            ressource: self.ressource.clone(),
            request_id: self.request_id.clone(),
        }
    }

    /// The answer that the error is shown as.
    pub fn into_response(self) -> (response: Response)
        ensures
            response@ == self@.response(),
    {
        let xml = self.body().to_xml();
        let response = Response::new(self.kind.status_code()).header(
            "content-type",
            String::from_str("application/xml"),
        ).body(into_document(xml.as_str()));
        assert(response@.headers =~= seq![("content-type"@, "application/xml"@)]);
        response
    }
}

/// What the body of an error holds.
pub struct ErrorView {
    pub code: Seq<char>,
    pub message: Seq<char>,
    pub ressource: Seq<char>,
    pub request_id: Seq<char>,
}

impl ErrorView {
    /// The four elements of the body, in order.
    pub open spec fn elements(self) -> Seq<char> {
        element("code"@, self.code) + element("message"@, self.message) + element(
            "ressource"@,
            self.ressource,
        ) + element("request_id"@, self.request_id)
    }

    /// The body as an `Error` element.
    pub open spec fn xml(self) -> Seq<char> {
        "<Error>"@ + self.elements() + "</Error>"@
    }
}

/// The body of an error answer.
#[derive(Debug)]
pub struct Error {
    pub code: String,
    pub message: String,
    pub ressource: String,
    pub request_id: String,
}

impl View for Error {
    type V = ErrorView;

    open spec fn view(&self) -> ErrorView {
        ErrorView {
            code: self.code@,
            message: self.message@,
            ressource: self.ressource@,
            request_id: self.request_id@,
        }
    }
}

impl Error {
    /// The body as an `Error` element.
    pub fn to_xml(&self) -> (xml: String)
        ensures
            xml@ == self@.xml(),
    {
        let mut xml = String::from_str("<Error>");
        push_element(&mut xml, "code", self.code.as_str());
        push_element(&mut xml, "message", self.message.as_str());
        push_element(&mut xml, "ressource", self.ressource.as_str());
        push_element(&mut xml, "request_id", self.request_id.as_str());
        xml.append("</Error>");
        assert(xml@ =~= self@.xml());
        xml
    }
}

} // verus!
