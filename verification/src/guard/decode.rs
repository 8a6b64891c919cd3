//! Decoding failures: how the decoder's errors are classified and which status
//! each class is answered with.

use vstd::prelude::*;
use crate::guard::outcome::{Rejection, Status};

verus! {

/// `serde_json::Error`, the decoder's error. The library carries it and asks
/// it two things: its category and its text.
#[verifier::external_type_specification]
#[verifier::external_body]
pub struct ExJsonError(serde_json::Error);

/// Why a body could not be decoded.
#[derive(Clone, Copy, Debug, PartialEq, Eq, Structural)]
pub enum ErrorCategory {
    /// Bytes could not be read or written.
    Io,
    /// The input is not syntactically valid JSON.
    Syntax,
    /// The input is valid JSON of the wrong shape.
    Data,
    /// The input ended before the value did.
    Eof,
}

/// The category that `serde_json::Error::classify` reports for `error`.
pub uninterp spec fn category_of(error: serde_json::Error) -> ErrorCategory;

/// The text that `error` displays, where `error` is not of the I/O category:
/// what its code says, followed by its line and column where it has them.
pub uninterp spec fn text_of(error: serde_json::Error) -> Seq<char>;

/// Calls `serde_json::Error::classify`, which reads the error's code and
/// nothing else; each of its four categories is handed on under the same name.
#[verifier::external_body]
fn classify(error: &serde_json::Error) -> (category: ErrorCategory)
    ensures
        category == category_of(*error),
{
    match error.classify() {
        serde_json::error::Category::Io => ErrorCategory::Io,
        serde_json::error::Category::Syntax => ErrorCategory::Syntax,
        serde_json::error::Category::Data => ErrorCategory::Data,
        serde_json::error::Category::Eof => ErrorCategory::Eof,
    }
}

/// Calls `to_string` on a `serde_json::Error`. Outside the I/O category the
/// text is made of the error's own code, line and column, and of nothing
/// else. For an I/O error it is whatever the underlying error displays, which
/// may be the platform's wording, so nothing is claimed of it.
#[verifier::external_body]
fn error_text(error: &serde_json::Error) -> (text: String)
    ensures
        category_of(*error) != ErrorCategory::Io ==> text@ == text_of(*error),
{
    error.to_string()
}

/// The status that answers a decoding failure of the given category.
pub open spec fn status_for(category: ErrorCategory) -> Status {
    match category {
        ErrorCategory::Eof | ErrorCategory::Syntax => Status::BadRequest,
        ErrorCategory::Io => Status::InternalServerError,
        ErrorCategory::Data => Status::UnprocessableEntity,
    }
}

/// The refusal for a decoding failure of the given category, with the
/// decoder's text as its message.
pub fn decode_failure(category: ErrorCategory, text: String) -> (rejection: Rejection)
    ensures
        rejection.status == status_for(category),
        rejection.message == text,
{
    let status = match category {
        ErrorCategory::Eof => Status::BadRequest,
        ErrorCategory::Syntax => Status::BadRequest,
        ErrorCategory::Io => Status::InternalServerError,
        ErrorCategory::Data => Status::UnprocessableEntity,
    };
    Rejection { status, message: text }
}

/// The refusal for a decoder error: the status of its category, and its text
/// as the message.
pub fn rejection_for(error: &serde_json::Error) -> (rejection: Rejection)
    ensures
        rejection.status == status_for(category_of(*error)),
        category_of(*error) != ErrorCategory::Io ==> rejection.message@ == text_of(*error),
{
    let category = classify(error);
    let text = error_text(error);
    decode_failure(category, text)
}

} // verus!
