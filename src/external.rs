//! The outside types that the library carries, and the calls it makes into
//! `serde_json` and `cdumay_core`.
use crate::kind::{Classification, ErrorKind};
use vstd::prelude::*;

verus! {

/// A failure reported by `serde_json`; opaque to the library, which only asks
/// for its classification.
#[verifier::external_type_specification]
#[verifier::external_body]
pub struct ExJsonError(serde_json::Error);

/// A structured value stored in the details of an error; carried, never read.
#[verifier::external_type_specification]
#[verifier::external_body]
pub struct ExValue(serde_value::Value);

/// The error type of the `cdumay_core` framework.
#[verifier::external_type_specification]
#[verifier::external_body]
pub struct ExCoreError(cdumay_core::Error);

/// Relies on `serde_json::Error::classify`, which sorts every failure into one
/// of its four categories; each is carried to the matching classification.
#[verifier::external_body]
pub(crate) fn classify(err: &serde_json::Error) -> (c: Classification) {
    match err.classify() {
        serde_json::error::Category::Io => Classification::Io,
        serde_json::error::Category::Syntax => Classification::Syntax,
        serde_json::error::Category::Data => Classification::Data,
        serde_json::error::Category::Eof => Classification::Eof,
    }
}

/// Relies on `cdumay_core::ErrorBuilder` (`new`, `with_message`,
/// `with_details`, `build`): assembles the framework's error from a kind, the
/// name of the binding, the message and the details; its code is the kind's
/// status.
#[verifier::external_body]
pub(crate) fn build_core_error(
    kind: ErrorKind,
    name: &'static str,
    message: String,
    details: std::collections::BTreeMap<String, serde_value::Value>,
) -> (e: cdumay_core::Error) {
    let core_kind = cdumay_core::ErrorKind(kind.identifier, kind.status, kind.description);
    cdumay_core::ErrorBuilder::new(core_kind, name)
        .with_message(message)
        .with_details(details)
        .build()
}

} // verus!
