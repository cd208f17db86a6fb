//! The kind registry: the four error kinds of the taxonomy and the
//! classification of a parser failure that selects one of them.
use vstd::prelude::*;

verus! {

/// An immutable error family: a stable identifier, an HTTP-style status and a
/// short description.
#[derive(Clone, Copy, Debug)]
pub struct ErrorKind {
    pub identifier: &'static str,
    pub status: u16,
    pub description: &'static str,
}

/// The category that the JSON parser assigns to one of its failures.
#[derive(Clone, Copy, Debug, PartialEq, Eq, Structural)]
pub enum Classification {
    Io,
    Syntax,
    Data,
    Eof,
}

/// Input that is not syntactically valid JSON.
pub open spec fn json_syntax() -> ErrorKind {
    ErrorKind { identifier: "JSON-00001", status: 400, description: "Syntax Error" }
}

/// Input that is valid JSON but does not fit the expected data.
pub open spec fn json_data() -> ErrorKind {
    ErrorKind { identifier: "JSON-00002", status: 400, description: "Invalid JSON data" }
}

/// Input that ends before the value is complete.
pub open spec fn json_eof() -> ErrorKind {
    ErrorKind { identifier: "JSON-00003", status: 500, description: "Reached the end of the input data" }
}

/// A failure to read or write the underlying byte stream.
pub open spec fn json_io() -> ErrorKind {
    ErrorKind { identifier: "JSON-00004", status: 500, description: "IO Error" }
}

/// The kinds of the taxonomy, each declared once.
pub open spec fn is_registered(k: ErrorKind) -> bool {
    k == json_syntax() || k == json_data() || k == json_eof() || k == json_io()
}

/// The dispatch table from a classification to its error kind.
pub open spec fn kind_of(c: Classification) -> ErrorKind {
    match c {
        Classification::Io => json_io(),
        Classification::Syntax => json_syntax(),
        Classification::Data => json_data(),
        Classification::Eof => json_eof(),
    }
}

impl ErrorKind {
    pub fn syntax() -> (k: ErrorKind)
        ensures
            k == json_syntax(),
    {
        ErrorKind { identifier: "JSON-00001", status: 400, description: "Syntax Error" }
    }

    pub fn data() -> (k: ErrorKind)
        ensures
            k == json_data(),
    {
        ErrorKind { identifier: "JSON-00002", status: 400, description: "Invalid JSON data" }
    }

    pub fn eof() -> (k: ErrorKind)
        ensures
            k == json_eof(),
    {
        ErrorKind {
            identifier: "JSON-00003",
            status: 500,
            description: "Reached the end of the input data",
        }
    }

    pub fn io() -> (k: ErrorKind)
        ensures
            k == json_io(),
    {
        ErrorKind { identifier: "JSON-00004", status: 500, description: "IO Error" }
    }
}

impl Classification {
    /// The error kind that this classification selects.
    pub fn kind(self) -> (k: ErrorKind)
        ensures
            k == kind_of(self),
            is_registered(k),
    {
        match self {
            Classification::Io => ErrorKind::io(),
            Classification::Syntax => ErrorKind::syntax(),
            Classification::Data => ErrorKind::data(),
            Classification::Eof => ErrorKind::eof(),
        }
    }
}

/// The identifiers of the registry are pairwise distinct.
pub proof fn lemma_identifiers_distinct()
    ensures
        json_syntax().identifier@ != json_data().identifier@,
        json_syntax().identifier@ != json_eof().identifier@,
        json_syntax().identifier@ != json_io().identifier@,
        json_data().identifier@ != json_eof().identifier@,
        json_data().identifier@ != json_io().identifier@,
        json_eof().identifier@ != json_io().identifier@,
{
    reveal_strlit("JSON-00001");
    reveal_strlit("JSON-00002");
    reveal_strlit("JSON-00003");
    reveal_strlit("JSON-00004");
    assert(json_syntax().identifier@[9] != json_data().identifier@[9]);
    assert(json_syntax().identifier@[9] != json_eof().identifier@[9]);
    assert(json_syntax().identifier@[9] != json_io().identifier@[9]);
    assert(json_data().identifier@[9] != json_eof().identifier@[9]);
    assert(json_data().identifier@[9] != json_io().identifier@[9]);
    assert(json_eof().identifier@[9] != json_io().identifier@[9]);
}

/// The dispatch table is total and has no overlaps: every classification
/// selects a registered kind, and two classifications that select kinds with
/// the same identifier are the same classification.
pub proof fn lemma_dispatch_total_and_injective(a: Classification, b: Classification)
    ensures
        is_registered(kind_of(a)),
        kind_of(a).identifier@ == kind_of(b).identifier@ <==> a == b,
{
    lemma_identifiers_distinct();
}

} // verus!
