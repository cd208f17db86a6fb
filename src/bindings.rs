//! The typed bindings: one error type per kind, built empty and refined by
//! chained setters, then converted into a `StructuredError`.
use crate::error::{Details, StructuredError};
use crate::kind::{json_data, json_eof, json_io, json_syntax, ErrorKind};
use vstd::prelude::*;

verus! {

/// The typed binding of the kind `json_io`: a message and details that are
/// refined before the value becomes a `StructuredError`.
pub struct IoError {
    pub message: String,
    pub details: Details,
}

impl IoError {
    /// The binding with its message replaced.
    pub open spec fn message_set(self, message: String) -> IoError {
        IoError { message, details: self.details }
    }

    /// The binding with its details replaced, not merged.
    pub open spec fn details_set(self, details: Details) -> IoError {
        IoError { message: self.message, details }
    }

    /// The structured error that the binding converts into.
    pub open spec fn structured(self) -> StructuredError {
        StructuredError {
            kind: json_io(),
            name: "IoError",
            message: self.message,
            details: self.details,
        }
    }

    /// A binding with an empty message and no details.
    pub fn new() -> (r: IoError)
        ensures
            r.message@ == Seq::<char>::empty(),
            r.details@ == Map::<String, serde_value::Value>::empty(),
    {
        IoError { message: String::new(), details: std::collections::BTreeMap::new() }
    }

    /// The kind this binding is pinned to.
    pub fn kind() -> (k: ErrorKind)
        ensures
            k == json_io(),
    {
        ErrorKind::io()
    }

    pub fn with_message(self, message: String) -> (r: IoError)
        ensures
            r == self.message_set(message),
    {
        IoError { message, details: self.details }
    }

    pub fn with_details(self, details: Details) -> (r: IoError)
        ensures
            r == self.details_set(details),
    {
        IoError { message: self.message, details }
    }
}

impl From<IoError> for StructuredError {
    fn from(e: IoError) -> (r: StructuredError) {
        StructuredError { kind: IoError::kind(), name: "IoError", message: e.message, details: e.details }
    }
}

impl vstd::std_specs::convert::FromSpecImpl<IoError> for StructuredError {
    open spec fn obeys_from_spec() -> bool {
        true
    }

    open spec fn from_spec(e: IoError) -> StructuredError {
        e.structured()
    }
}

/// Setting the same message or the same details twice is the same as setting
/// it once.
pub proof fn lemma_io_error_setters_idempotent(e: IoError, message: String, details: Details)
    ensures
        e.message_set(message).message_set(message) == e.message_set(message),
        e.details_set(details).details_set(details) == e.details_set(details),
{
}

/// The typed binding of the kind `json_syntax`: a message and details that are
/// refined before the value becomes a `StructuredError`.
pub struct SyntaxError {
    pub message: String,
    pub details: Details,
}

impl SyntaxError {
    /// The binding with its message replaced.
    pub open spec fn message_set(self, message: String) -> SyntaxError {
        SyntaxError { message, details: self.details }
    }

    /// The binding with its details replaced, not merged.
    pub open spec fn details_set(self, details: Details) -> SyntaxError {
        SyntaxError { message: self.message, details }
    }

    /// The structured error that the binding converts into.
    pub open spec fn structured(self) -> StructuredError {
        StructuredError {
            kind: json_syntax(),
            name: "SyntaxError",
            message: self.message,
            details: self.details,
        }
    }

    /// A binding with an empty message and no details.
    pub fn new() -> (r: SyntaxError)
        ensures
            r.message@ == Seq::<char>::empty(),
            r.details@ == Map::<String, serde_value::Value>::empty(),
    {
        SyntaxError { message: String::new(), details: std::collections::BTreeMap::new() }
    }

    /// The kind this binding is pinned to.
    pub fn kind() -> (k: ErrorKind)
        ensures
            k == json_syntax(),
    {
        ErrorKind::syntax()
    }

    pub fn with_message(self, message: String) -> (r: SyntaxError)
        ensures
            r == self.message_set(message),
    {
        SyntaxError { message, details: self.details }
    }

    pub fn with_details(self, details: Details) -> (r: SyntaxError)
        ensures
            r == self.details_set(details),
    {
        SyntaxError { message: self.message, details }
    }
}

impl From<SyntaxError> for StructuredError {
    fn from(e: SyntaxError) -> (r: StructuredError) {
        StructuredError { kind: SyntaxError::kind(), name: "SyntaxError", message: e.message, details: e.details }
    }
}

impl vstd::std_specs::convert::FromSpecImpl<SyntaxError> for StructuredError {
    open spec fn obeys_from_spec() -> bool {
        true
    }

    open spec fn from_spec(e: SyntaxError) -> StructuredError {
        e.structured()
    }
}

/// Setting the same message or the same details twice is the same as setting
/// it once.
pub proof fn lemma_syntax_error_setters_idempotent(e: SyntaxError, message: String, details: Details)
    ensures
        e.message_set(message).message_set(message) == e.message_set(message),
        e.details_set(details).details_set(details) == e.details_set(details),
{
}

/// The typed binding of the kind `json_data`: a message and details that are
/// refined before the value becomes a `StructuredError`.
pub struct DataError {
    pub message: String,
    pub details: Details,
}

impl DataError {
    /// The binding with its message replaced.
    pub open spec fn message_set(self, message: String) -> DataError {
        DataError { message, details: self.details }
    }

    /// The binding with its details replaced, not merged.
    pub open spec fn details_set(self, details: Details) -> DataError {
        DataError { message: self.message, details }
    }

    /// The structured error that the binding converts into.
    pub open spec fn structured(self) -> StructuredError {
        StructuredError {
            kind: json_data(),
            name: "DataError",
            message: self.message,
            details: self.details,
        }
    }

    /// A binding with an empty message and no details.
    pub fn new() -> (r: DataError)
        ensures
            r.message@ == Seq::<char>::empty(),
            r.details@ == Map::<String, serde_value::Value>::empty(),
    {
        DataError { message: String::new(), details: std::collections::BTreeMap::new() }
    }

    /// The kind this binding is pinned to.
    pub fn kind() -> (k: ErrorKind)
        ensures
            k == json_data(),
    {
        ErrorKind::data()
    }

    pub fn with_message(self, message: String) -> (r: DataError)
        ensures
            r == self.message_set(message),
    {
        DataError { message, details: self.details }
    }

    pub fn with_details(self, details: Details) -> (r: DataError)
        ensures
            r == self.details_set(details),
    {
        DataError { message: self.message, details }
    }
}

impl From<DataError> for StructuredError {
    fn from(e: DataError) -> (r: StructuredError) {
        StructuredError { kind: DataError::kind(), name: "DataError", message: e.message, details: e.details }
    }
}

impl vstd::std_specs::convert::FromSpecImpl<DataError> for StructuredError {
    open spec fn obeys_from_spec() -> bool {
        true
    }

    open spec fn from_spec(e: DataError) -> StructuredError {
        e.structured()
    }
}

/// Setting the same message or the same details twice is the same as setting
/// it once.
pub proof fn lemma_data_error_setters_idempotent(e: DataError, message: String, details: Details)
    ensures
        e.message_set(message).message_set(message) == e.message_set(message),
        e.details_set(details).details_set(details) == e.details_set(details),
{
}

/// The typed binding of the kind `json_eof`: a message and details that are
/// refined before the value becomes a `StructuredError`.
pub struct EofError {
    pub message: String,
    pub details: Details,
}

impl EofError {
    /// The binding with its message replaced.
    pub open spec fn message_set(self, message: String) -> EofError {
        EofError { message, details: self.details }
    }

    /// The binding with its details replaced, not merged.
    pub open spec fn details_set(self, details: Details) -> EofError {
        EofError { message: self.message, details }
    }

    /// The structured error that the binding converts into.
    pub open spec fn structured(self) -> StructuredError {
        StructuredError {
            kind: json_eof(),
            name: "EofError",
            message: self.message,
            details: self.details,
        }
    }

    /// A binding with an empty message and no details.
    pub fn new() -> (r: EofError)
        ensures
            r.message@ == Seq::<char>::empty(),
            r.details@ == Map::<String, serde_value::Value>::empty(),
    {
        EofError { message: String::new(), details: std::collections::BTreeMap::new() }
    }

    /// The kind this binding is pinned to.
    pub fn kind() -> (k: ErrorKind)
        ensures
            k == json_eof(),
    {
        ErrorKind::eof()
    }

    pub fn with_message(self, message: String) -> (r: EofError)
        ensures
            r == self.message_set(message),
    {
        EofError { message, details: self.details }
    }

    pub fn with_details(self, details: Details) -> (r: EofError)
        ensures
            r == self.details_set(details),
    {
        EofError { message: self.message, details }
    }
}

impl From<EofError> for StructuredError {
    fn from(e: EofError) -> (r: StructuredError) {
        StructuredError { kind: EofError::kind(), name: "EofError", message: e.message, details: e.details }
    }
}

impl vstd::std_specs::convert::FromSpecImpl<EofError> for StructuredError {
    open spec fn obeys_from_spec() -> bool {
        true
    }

    open spec fn from_spec(e: EofError) -> StructuredError {
        e.structured()
    }
}

/// Setting the same message or the same details twice is the same as setting
/// it once.
pub proof fn lemma_eof_error_setters_idempotent(e: EofError, message: String, details: Details)
    ensures
        e.message_set(message).message_set(message) == e.message_set(message),
        e.details_set(details).details_set(details) == e.details_set(details),
{
}

} // verus!
