//! What the framework reports of a request before its body is decoded: the
//! content type that it declares, and the error of a read that failed.

use vstd::prelude::*;
use rocket::http::ContentType;

verus! {

/// `rocket::http::ContentType`, a parsed `Content-Type` header. The library
/// carries it and asks it one thing: whether it is JSON.
#[verifier::external_type_specification]
#[verifier::external_body]
pub struct ExContentType(ContentType);

/// `std::io::Error`, the error of a failed read. The library carries it and
/// asks it for its debug text.
#[verifier::external_type_specification]
#[verifier::external_body]
pub struct ExReadError(std::io::Error);

/// Whether a content type is equal to `ContentType::JSON`: whether its
/// top-level type is `application` and its subtype `json`, whatever the case
/// of the letters and whatever parameters follow.
pub uninterp spec fn names_json(content_type: ContentType) -> bool;

/// Compares a `rocket::http::ContentType` with `ContentType::JSON` by `==`,
/// which compares the two top-level types and the two subtypes without regard
/// to ASCII case, and nothing else.
#[verifier::external_body]
pub(crate) fn is_json(content_type: &ContentType) -> (json: bool)
    ensures
        json == names_json(*content_type),
{
    *content_type == ContentType::JSON
}

/// Formats a `std::io::Error` with `{:?}`. The text may be the platform's
/// wording, so nothing is claimed of it.
#[verifier::external_body]
pub(crate) fn debug_text(error: &std::io::Error) -> String {
    format!("{:?}", error)
}

/// Whether a request declares a JSON body: it has a content type, and the
/// content type is JSON.
pub open spec fn declares_json(content_type: Option<ContentType>) -> bool {
    content_type matches Some(declared) && names_json(declared)
}

} // verus!
