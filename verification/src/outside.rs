//! Types and functions of other crates that the library relies on without proof.

use vstd::prelude::*;

verus! {

/// `std::io::Error`. The library carries such a value through and never looks inside.
#[verifier::external_type_specification]
#[verifier::external_body]
pub struct ExIoError(std::io::Error);

/// `std::io::ErrorKind`, with its variants.
#[verifier::external_type_specification]
pub struct ExIoErrorKind(std::io::ErrorKind);

/// `bincode::serde::DeserializeError`. The library carries such a value through and never
/// looks inside.
#[verifier::external_type_specification]
#[verifier::external_body]
pub struct ExDeserializeError(bincode::serde::DeserializeError);

/// What `std::io::Error::kind` returns for `e`.
pub uninterp spec fn io_error_kind(e: std::io::Error) -> std::io::ErrorKind;

/// `std::io::Error::new`: the error made from a kind and a message reports that kind.
#[verifier::external_body]
pub(crate) fn io_error(kind: std::io::ErrorKind, message: &str) -> (e: std::io::Error)
    ensures
        io_error_kind(e) == kind,
{
    std::io::Error::new(kind, message)
}

} // verus!
