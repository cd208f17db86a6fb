//! The structured error value that every typed binding converts into.
use crate::external::build_core_error;
use crate::kind::{is_registered, ErrorKind};
use vstd::prelude::*;

verus! {

/// Contextual metadata of an error: string keys, ordered, each mapped to a
/// structured value.
pub type Details = std::collections::BTreeMap<String, serde_value::Value>;

/// The common error value: the kind it belongs to, the name of the typed
/// binding that produced it, a human-readable message and its details.
#[derive(Debug)]
pub struct StructuredError {
    pub kind: ErrorKind,
    pub name: &'static str,
    pub message: String,
    pub details: Details,
}

impl StructuredError {
    /// The error's kind is one of the registry.
    pub open spec fn wf(&self) -> bool {
        is_registered(self.kind)
    }

    /// The identifier of the error's kind.
    pub fn identifier(&self) -> (r: &'static str)
        ensures
            r@ == self.kind.identifier@,
    {
        self.kind.identifier
    }

    /// The status of the error's kind.
    pub fn status(&self) -> (r: u16)
        ensures
            r == self.kind.status,
    {
        self.kind.status
    }

    /// Hands the error over to the `cdumay_core` framework.
    pub fn into_core(self) -> cdumay_core::Error {
        build_core_error(self.kind, self.name, self.message, self.details)
    }
}

} // verus!
