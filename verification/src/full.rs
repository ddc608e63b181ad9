//! The buffered body of `http_body_util`, as this library sees it.
//!
//! Nothing in this file is proved. The body is opaque here: the library
//! takes the bytes out of it, through the function below, and holds them
//! itself.

use vstd::prelude::*;

verus! {

/// `bytes::Bytes`, a buffer of bytes.
#[verifier::external_type_specification]
#[verifier::external_body]
pub struct ExBytes(hyper::body::Bytes);

/// `http_body_util::Full`, a body of one buffer.
#[verifier::external_type_specification]
#[verifier::external_body]
#[verifier::reject_recursive_types(D)]
pub struct ExFull<D>(http_body_util::Full<D>);

/// The bytes that a buffered body holds: none where it was made of an empty
/// buffer.
pub uninterp spec fn full_data(full: http_body_util::Full<hyper::body::Bytes>) -> Seq<u8>;

/// `http_body_util::Full::into_inner`, with the buffer that it gives made
/// into a vector by `Vec::from`: the bytes that the body holds.
#[verifier::external_body]
pub(crate) fn full_into_bytes(full: http_body_util::Full<hyper::body::Bytes>) -> (data: Vec<u8>)
    ensures
        data@ == full_data(full),
{
    match full.into_inner() {
        Some(bytes) => Vec::from(bytes),
        None => Vec::new(),
    }
}

} // verus!
