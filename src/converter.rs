//! The classifying converter: turns a `serde_json` failure into the structured
//! error of the binding that its classification selects.
use crate::bindings::{DataError, EofError, IoError, SyntaxError};
use crate::error::{Details, StructuredError};
use crate::external::classify;
use crate::kind::{kind_of, Classification};
use vstd::prelude::*;
use vstd::string::to_string_from_display_ensures;

verus! {

/// The structured error that a failure of classification `c` becomes, with
/// message `text` and details `context`: the dispatch table over the bindings.
pub open spec fn converted(c: Classification, text: String, context: Details) -> StructuredError {
    match c {
        Classification::Io => IoError { message: text, details: context }.structured(),
        Classification::Syntax => SyntaxError { message: text, details: context }.structured(),
        Classification::Data => DataError { message: text, details: context }.structured(),
        Classification::Eof => EofError { message: text, details: context }.structured(),
    }
}

/// `e` is what the converter makes of a failure of some classification,
/// with the message and the details that `e` carries.
pub open spec fn is_conversion(e: StructuredError) -> bool {
    exists|c: Classification| e == #[trigger] converted(c, e.message, e.details)
}

/// Whatever the classification, the converted error has the kind that the
/// dispatch table gives it and carries the message and the details verbatim.
pub proof fn lemma_converted_carries_inputs(c: Classification, text: String, context: Details)
    ensures
        converted(c, text, context).kind == kind_of(c),
        converted(c, text, context).message == text,
        converted(c, text, context).details == context,
        converted(c, text, context).wf(),
{
}

/// Converts `serde_json` failures into structured errors.
pub struct JsonErrorConverter;

impl JsonErrorConverter {
    /// The structured error for a failure of classification `c`, built by the
    /// binding of its kind with `text` as message and `context` as details.
    pub fn convert_classified(c: Classification, text: String, context: Details) -> (r:
        StructuredError)
        ensures
            r == converted(c, text, context),
    {
        match c {
            Classification::Io => IoError::new().with_message(text).with_details(context).into(),
            Classification::Syntax => SyntaxError::new().with_message(text).with_details(
                context,
            ).into(),
            Classification::Data => DataError::new().with_message(text).with_details(
                context,
            ).into(),
            Classification::Eof => EofError::new().with_message(text).with_details(context).into(),
        }
    }

    /// Classifies `err` and converts it with `text` as message and `context`
    /// as details. The conversion never fails.
    pub fn convert(err: &serde_json::Error, text: String, context: Details) -> (r:
        StructuredError)
        ensures
            is_conversion(r),
            r.message == text,
            r.details == context,
            r.wf(),
    {
        let c = classify(err);
        proof {
            lemma_converted_carries_inputs(c, text, context);
            assert(converted(c, text, context) == converted(
                c,
                converted(c, text, context).message,
                converted(c, text, context).details,
            ));
        }
        Self::convert_classified(c, text, context)
    }

    /// Passes a successful parse through unchanged; converts a failed one,
    /// with the given details (none when absent) and the given message (the
    /// failure's own text when absent).
    pub fn convert_result<T>(
        result: Result<T, serde_json::Error>,
        context: Option<Details>,
        text: Option<String>,
    ) -> (r: Result<T, StructuredError>)
        ensures
            result is Ok ==> r == Ok::<T, StructuredError>(result->Ok_0),
            result is Err ==> r is Err && is_conversion(r->Err_0),
            result is Err && text is Some ==> r->Err_0.message == text->Some_0,
            result is Err && text is None ==> to_string_from_display_ensures::<serde_json::Error>(
                &result->Err_0,
                r->Err_0.message,
            ),
            result is Err && context is Some ==> r->Err_0.details == context->Some_0,
            result is Err && context is None ==> r->Err_0.details@ == Map::<
                String,
                serde_value::Value,
            >::empty(),
    {
        match result {
            Ok(v) => Ok(v),
            Err(err) => {
                let details = match context {
                    Some(ctx) => ctx,
                    None => std::collections::BTreeMap::new(),
                };
                let message = match text {
                    Some(t) => t,
                    None => err.to_string(),
                };
                let e = Self::convert(&err, message, details);
                Err(e)
            },
        }
    }
}

} // verus!
