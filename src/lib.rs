//! Classifies `serde_json` parse failures into a closed taxonomy of structured
//! errors, each carrying a stable identifier, an HTTP-style status, a message
//! and a map of contextual details.
pub mod bindings;
pub mod converter;
pub mod error;
pub mod external;
pub mod kind;

pub use bindings::{DataError, EofError, IoError, SyntaxError};
pub use converter::JsonErrorConverter;
pub use error::{Details, StructuredError};
pub use kind::{Classification, ErrorKind};
