//! Errors, authentication modes and listing depths shared by the whole crate.

pub mod list_cmd;

use digest_auth::Error as DigestAuthError;
use reqwest::Error as ReqwestError;
use serde_xml_rs::Error as SerdeXmlError;
use crate::decimal::{format_i64, i64_text};
use vstd::prelude::*;

verus! {

/// `reqwest::Error`: a transport failure, carried through unread.
#[verifier::external_type_specification]
#[verifier::external_body]
pub struct ExReqwestError(ReqwestError);

/// `url::ParseError`: a URL that could not be parsed, carried through unread.
#[verifier::external_type_specification]
#[verifier::external_body]
pub struct ExUrlParseError(url::ParseError);

/// `http::header::ToStrError`: a header value that is not visible ASCII.
#[verifier::external_type_specification]
#[verifier::external_body]
pub struct ExToStrError(http::header::ToStrError);

/// `http::header::InvalidHeaderValue`: a value that cannot be sent as a header.
#[verifier::external_type_specification]
#[verifier::external_body]
pub struct ExInvalidHeaderValue(http::header::InvalidHeaderValue);

/// `http::method::InvalidMethod`: a method name that HTTP does not accept.
#[verifier::external_type_specification]
#[verifier::external_body]
pub struct ExInvalidMethod(http::method::InvalidMethod);

/// `digest_auth::Error`: a challenge or response the digest crate rejected.
#[verifier::external_type_specification]
#[verifier::external_body]
pub struct ExDigestAuthError(DigestAuthError);

/// `serde_xml_rs::Error`: an XML body that did not fit the expected schema.
#[verifier::external_type_specification]
#[verifier::external_body]
pub struct ExSerdeXmlError(SerdeXmlError);

/// Every failure the client reports, by the stage that produced it.
#[derive(Debug)]
pub enum Error {
    Reqwest(ReqwestError),
    ReqwestDecode(ReqwestDecodeError),
    Decode(DecodeError),
    /// The digest session was found empty right after it was set up.
    MissingAuthContext,
}

#[derive(Debug)]
pub enum DecodeError {
    DigestAuth(DigestAuthError),
    NoAuthHeaderInResponse,
    SerdeXml(SerdeXmlError),
    FieldNotSupported(FieldError),
    FieldNotFound(FieldError),
    StatusMismatched(StatusMismatchedError),
    Server(ServerError),
}

#[derive(Debug)]
pub struct FieldError {
    pub field: String,
}

#[derive(Debug)]
pub struct StatusMismatchedError {
    pub response_code: u16,
    pub expected_code: u16,
}

#[derive(Debug)]
pub struct ServerError {
    pub response_code: u16,
    pub exception: String,
    pub message: String,
}

#[derive(Debug)]
pub enum ReqwestDecodeError {
    Url(url::ParseError),
    HeaderToString(http::header::ToStrError),
    InvalidHeaderValue(http::header::InvalidHeaderValue),
    InvalidMethod(http::method::InvalidMethod),
}

/// A property value that is present and non-empty but does not parse.
#[derive(Debug)]
pub struct InvalidValueError {
    pub value: String,
}

impl Error {
    /// `e` is a decode failure naming a missing field.
    pub open spec fn is_field_not_found(self, field: Seq<char>) -> bool {
        self matches Error::Decode(DecodeError::FieldNotFound(f)) && f.field@ == field
    }

    /// `e` is a decode failure naming an unsupported field.
    pub open spec fn is_field_not_supported(self, field: Seq<char>) -> bool {
        self matches Error::Decode(DecodeError::FieldNotSupported(f)) && f.field@ == field
    }

    /// `e` reports that a response came back with `code` where `expected` was due.
    pub open spec fn is_status_mismatch(self, code: u16, expected: u16) -> bool {
        self matches Error::Decode(DecodeError::StatusMismatched(s)) && s.response_code == code
            && s.expected_code == expected
    }

    pub fn field_not_found(field: &str) -> (e: Error)
        ensures
            e.is_field_not_found(field@),
    {
        Error::Decode(DecodeError::FieldNotFound(FieldError { field: field.to_owned() }))
    }

    pub fn field_not_supported(field: &str) -> (e: Error)
        ensures
            e.is_field_not_supported(field@),
    {
        Error::Decode(DecodeError::FieldNotSupported(FieldError { field: field.to_owned() }))
    }

    pub fn status_mismatch(code: u16, expected: u16) -> (e: Error)
        ensures
            e.is_status_mismatch(code, expected),
    {
        Error::Decode(
            DecodeError::StatusMismatched(
                StatusMismatchedError { response_code: code, expected_code: expected },
            ),
        )
    }
}

impl From<url::ParseError> for Error {
    fn from(error: url::ParseError) -> Self {
        Error::ReqwestDecode(ReqwestDecodeError::Url(error))
    }
}

impl vstd::std_specs::convert::FromSpecImpl<url::ParseError> for Error {
    open spec fn obeys_from_spec() -> bool {
        true
    }

    open spec fn from_spec(error: url::ParseError) -> Error {
        Error::ReqwestDecode(ReqwestDecodeError::Url(error))
    }
}

impl From<ReqwestError> for Error {
    fn from(error: ReqwestError) -> Self {
        Error::Reqwest(error)
    }
}

impl vstd::std_specs::convert::FromSpecImpl<ReqwestError> for Error {
    open spec fn obeys_from_spec() -> bool {
        true
    }

    open spec fn from_spec(error: ReqwestError) -> Error {
        Error::Reqwest(error)
    }
}

impl From<http::header::ToStrError> for Error {
    fn from(error: http::header::ToStrError) -> Self {
        Error::ReqwestDecode(ReqwestDecodeError::HeaderToString(error))
    }
}

impl vstd::std_specs::convert::FromSpecImpl<http::header::ToStrError> for Error {
    open spec fn obeys_from_spec() -> bool {
        true
    }

    open spec fn from_spec(error: http::header::ToStrError) -> Error {
        Error::ReqwestDecode(ReqwestDecodeError::HeaderToString(error))
    }
}

impl From<http::header::InvalidHeaderValue> for Error {
    fn from(error: http::header::InvalidHeaderValue) -> Self {
        Error::ReqwestDecode(ReqwestDecodeError::InvalidHeaderValue(error))
    }
}

impl vstd::std_specs::convert::FromSpecImpl<http::header::InvalidHeaderValue> for Error {
    open spec fn obeys_from_spec() -> bool {
        true
    }

    open spec fn from_spec(error: http::header::InvalidHeaderValue) -> Error {
        Error::ReqwestDecode(ReqwestDecodeError::InvalidHeaderValue(error))
    }
}

impl From<http::method::InvalidMethod> for Error {
    fn from(error: http::method::InvalidMethod) -> Self {
        Error::ReqwestDecode(ReqwestDecodeError::InvalidMethod(error))
    }
}

impl vstd::std_specs::convert::FromSpecImpl<http::method::InvalidMethod> for Error {
    open spec fn obeys_from_spec() -> bool {
        true
    }

    open spec fn from_spec(error: http::method::InvalidMethod) -> Error {
        Error::ReqwestDecode(ReqwestDecodeError::InvalidMethod(error))
    }
}

impl From<DigestAuthError> for Error {
    fn from(error: DigestAuthError) -> Self {
        Error::Decode(DecodeError::DigestAuth(error))
    }
}

impl vstd::std_specs::convert::FromSpecImpl<DigestAuthError> for Error {
    open spec fn obeys_from_spec() -> bool {
        true
    }

    open spec fn from_spec(error: DigestAuthError) -> Error {
        Error::Decode(DecodeError::DigestAuth(error))
    }
}

impl From<SerdeXmlError> for Error {
    fn from(error: SerdeXmlError) -> Self {
        Error::Decode(DecodeError::SerdeXml(error))
    }
}

impl vstd::std_specs::convert::FromSpecImpl<SerdeXmlError> for Error {
    open spec fn obeys_from_spec() -> bool {
        true
    }

    open spec fn from_spec(error: SerdeXmlError) -> Error {
        Error::Decode(DecodeError::SerdeXml(error))
    }
}

/// How every request of one client authenticates; chosen once, when the client is built.
#[derive(Debug, Clone)]
pub enum Auth {
    Anonymous,
    /// Username and password, sent with every request.
    Basic(String, String),
    /// Username and password, proven to the server through a digest challenge.
    Digest(String, String),
}

/// How deep a PROPFIND listing reaches below the requested resource.
#[derive(Debug, Clone)]
pub enum Depth {
    Number(i64),
    Infinity,
}

impl Depth {
    /// The value of the `Depth` header: the number in decimal, or `infinity`.
    pub fn header_value(&self) -> (r: String)
        ensures
            *self matches Depth::Number(n) ==> r@ == i64_text(n),
            *self is Infinity ==> r@ == "infinity"@,
    {
        match self {
            Depth::Number(n) => format_i64(*n),
            Depth::Infinity => "infinity".to_owned(),
        }
    }
}

} // verus!
