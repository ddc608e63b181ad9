//! The types of the `http` crate that a request and a response carry, as this
//! library sees them.
//!
//! Nothing in this file is proved. The values are opaque here: the library
//! hands them on unchanged and reads only a request's path and a response's
//! status, through the functions below.

use vstd::prelude::*;

verus! {

/// `http::Method`, a request method.
#[verifier::external_type_specification]
#[verifier::external_body]
pub struct ExMethod(http::Method);

/// `http::Uri`, a request target.
#[verifier::external_type_specification]
#[verifier::external_body]
pub struct ExUri(http::Uri);

/// `http::Version`, a protocol version.
#[verifier::external_type_specification]
#[verifier::external_body]
pub struct ExVersion(http::Version);

/// `http::HeaderValue`, the value of one header field.
#[verifier::external_type_specification]
#[verifier::external_body]
pub struct ExHeaderValue(http::HeaderValue);

/// `http::HeaderMap`, the header fields of a message.
#[verifier::external_type_specification]
#[verifier::external_body]
#[verifier::reject_recursive_types(T)]
pub struct ExHeaderMap<T>(http::HeaderMap<T>);

/// `http::Extensions`, the typed values attached to a message.
#[verifier::external_type_specification]
#[verifier::external_body]
pub struct ExExtensions(http::Extensions);

/// `http::response::Parts`, the head of a response: status, version, headers and
/// extensions.
#[verifier::external_type_specification]
#[verifier::external_body]
pub struct ExResponseHead(http::response::Parts);

/// The path component of a URI, as `http::Uri::path` gives it.
pub uninterp spec fn uri_path(uri: http::Uri) -> Seq<char>;

/// The status code of a response head, as a number.
pub uninterp spec fn head_status(head: http::response::Parts) -> u16;

/// `http::Uri::path`, copied into an owned string.
#[verifier::external_body]
pub(crate) fn path_of(uri: &http::Uri) -> (path: String)
    ensures
        path@ == uri_path(*uri),
{
    uri.path().to_string()
}

/// `http::StatusCode::as_u16` of a head's status.
#[verifier::external_body]
pub(crate) fn status_of(head: &http::response::Parts) -> (code: u16)
    ensures
        code == head_status(*head),
{
    head.status.as_u16()
}

/// The head of `http::Response::new`: by the crate's documentation the
/// default head, whose status is 200.
#[verifier::external_body]
pub(crate) fn default_head() -> (head: http::response::Parts)
    ensures
        head_status(head) == 200,
{
    http::Response::new(()).into_parts().0
}

/// The head that `http::Response::builder` makes when it is given the status
/// `code` and nothing else. The builder takes the numbers from 100 to 999
/// for a status, and fails on any other.
#[verifier::external_body]
pub(crate) fn head_with_status(code: u16) -> (head: http::response::Parts)
    requires
        100 <= code <= 999,
    ensures
        head_status(head) == code,
{
    http::Response::builder().status(code).body(()).unwrap().into_parts().0
}

} // verus!
