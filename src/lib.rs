//! A WebDAV client library: request authentication (Anonymous, Basic and
//! Digest with a reusable session) and decoding of PROPFIND listings into
//! typed entities.

pub mod authentication;
pub mod client;
pub mod decimal;
pub mod types;

pub use authentication::{authentication_step, AuthStep, DigestResponse, DigestSession};
pub use client::{ClientBuilder, ClientSettings};
pub use types::list_cmd;
pub use types::{
    Auth, DecodeError, Depth, Error, FieldError, InvalidValueError, ReqwestDecodeError,
    ServerError, StatusMismatchedError,
};
