//! A guard for JSON request bodies.
//!
//! The guard decides; the web framework does the work. The framework reports
//! what it has seen of a request as a [`Progress`], and
//! [`validate_json_request`] answers with the [`Step`] to take next: read the
//! body, decode it, or finish with an [`Outcome`]. A decoded value that
//! declares validation rules is then checked by [`perform_custom_validation`].

pub mod decode;
pub mod laws;
pub mod outcome;
pub mod request;
pub mod text;
pub mod violations;

use vstd::prelude::*;
use rocket::http::ContentType;
use validator::{ValidationError, ValidationErrors};
use crate::guard::request::{debug_text, declares_json, is_json};
use crate::guard::decode::{category_of, rejection_for, status_for, text_of, ErrorCategory};
use crate::guard::outcome::{Outcome, Rejection, Status};
use crate::guard::text::{join, joined};
use crate::guard::violations::{
    collect, field_messages, format_violation, message, message_of, reports, violation_text,
};

verus! {

/// The most bytes of a body that the guard lets the framework read.
pub const LIMIT: u64 = 256;

/// What the framework has seen of a request so far.
#[derive(Debug)]
pub enum Progress<T> {
    /// The request has arrived and its body is unopened.
    Received { content_type: Option<ContentType> },
    /// The body has been read, or the read has failed.
    BodyRead { read: Result<String, std::io::Error> },
    /// The decoder has run on the body.
    Decoded { decoded: Result<T, serde_json::Error> },
}

/// What the guard asks of the framework next.
#[derive(Debug, PartialEq, Eq)]
pub enum Step<T> {
    /// Read the body as text, and no more than `limit` bytes of it.
    ReadBody { limit: u64 },
    /// Decode `body` as JSON.
    Decode { body: String },
    /// Nothing more: the guard has decided.
    Done { outcome: Outcome<T> },
}

/// The refusal of a request whose body could not be read.
pub fn read_failure(text: String) -> (rejection: Rejection)
    ensures
        rejection.status == Status::InternalServerError,
        rejection.message == text,
{
    Rejection { status: Status::InternalServerError, message: text }
}

/// Whether `step` is the guard's answer to `progress`.
pub open spec fn answers<T>(progress: Progress<T>, step: Step<T>) -> bool {
    match progress {
        Progress::Received { content_type } => if declares_json(content_type) {
            step == (Step::<T>::ReadBody { limit: LIMIT })
        } else {
            step == (Step::Done { outcome: Outcome::<T>::Forward })
        },
        Progress::BodyRead { read: Ok(body) } => step == (Step::<T>::Decode { body }),
        Progress::BodyRead { read: Err(_) } => {
            &&& step matches Step::Done { outcome: Outcome::Failure(rejection) }
            &&& rejection.status == Status::InternalServerError
        },
        Progress::Decoded { decoded: Ok(value) } => step == (Step::Done {
            outcome: Outcome::Success(value),
        }),
        Progress::Decoded { decoded: Err(error) } => {
            &&& step matches Step::Done { outcome: Outcome::Failure(rejection) }
            &&& rejection.status == status_for(category_of(error))
            &&& category_of(error) != ErrorCategory::Io ==> rejection.message@ == text_of(error)
        },
    }
}

/// Guards a request that should carry a JSON body, one step at a time.
///
/// A request that does not declare a JSON body is forwarded, unread. One that
/// does is read, up to [`LIMIT`] bytes. A failed read is refused with status
/// 500 and the error's debug text. A body that was read is decoded. A body
/// that decodes is accepted. One that does not is refused with the decoder's
/// own text: with status 400 where the input ends early or is not JSON, 422
/// where it is JSON of the wrong shape, 500 where bytes could not be read.
pub fn validate_json_request<T>(progress: Progress<T>) -> (step: Step<T>)
    ensures
        answers(progress, step),
{
    match progress {
        Progress::Received { content_type } => {
            let json = match &content_type {
                Some(declared) => is_json(declared),
                None => false,
            };
            if json {
                Step::ReadBody { limit: LIMIT }
            } else {
                Step::Done { outcome: Outcome::Forward }
            }
        },
        Progress::BodyRead { read } => match read {
            Ok(body) => Step::Decode { body },
            Err(error) => Step::Done { outcome: Outcome::Failure(read_failure(debug_text(&error))) },
        },
        Progress::Decoded { decoded } => match decoded {
            Ok(value) => Step::Done { outcome: Outcome::Success(value) },
            Err(error) => Step::Done { outcome: Outcome::Failure(rejection_for(&error)) },
        },
    }
}

/// The message that refuses a value whose violations are reported by `texts`.
pub open spec fn validation_message(texts: Seq<Seq<char>>) -> Seq<char> {
    "The following validation errors occurred: "@ + joined(texts, ";"@)
}

/// The refusal of a value whose violations are reported by `texts`.
pub fn validation_failure(texts: &Vec<String>) -> (rejection: Rejection)
    ensures
        rejection.status == Status::BadRequest,
        rejection.message@ == validation_message(texts.deep_view()),
{
    let list = join(texts, ";");
    let mut message = String::from_str("The following validation errors occurred: ");
    message.append(list.as_str());
    Rejection { status: Status::BadRequest, message }
}

/// Whether `outcome` is the guard's answer for `resource`, given what its
/// validation rules returned.
pub open spec fn settles<T>(
    resource: T,
    validation: Result<(), ValidationErrors>,
    outcome: Outcome<T>,
) -> bool {
    match validation {
        Ok(_) => outcome == Outcome::Success(resource),
        Err(errors) => {
            &&& outcome matches Outcome::Failure(rejection)
            &&& rejection.status == Status::BadRequest
            &&& exists|texts: Seq<Seq<char>>|
                #![trigger reports(texts, errors)]
                reports(texts, errors) && rejection.message@ == validation_message(texts)
        },
    }
}

/// Accepts a decoded value whose validation rules all held, and refuses one
/// that broke any.
///
/// `validation` is what the value's rules returned. Where they held, the
/// value comes back unchanged. Where they did not, the refusal has status 400
/// and a message that lists the quoted message of every field-level violation
/// that has one, separated by `;`, after a fixed introduction.
pub fn perform_custom_validation<T>(
    resource: T,
    validation: Result<(), ValidationErrors>,
) -> (outcome: Outcome<T>)
    ensures
        settles(resource, validation, outcome),
{
    match validation {
        Ok(_) => Outcome::Success(resource),
        Err(errors) => {
            let error_messages = handle_validation_errors(errors);
            let rejection = validation_failure(&error_messages);
            Outcome::Failure(rejection)
        },
    }
}

/// The reports of the field-level violations in `validation_errors`: for each
/// field in turn, the quoted message of each of its violations that has one.
/// The order of the fields is not fixed.
pub fn handle_validation_errors(validation_errors: ValidationErrors) -> (messages: Vec<String>)
    ensures
        reports(messages.deep_view(), validation_errors),
{
    let groups = field_messages(&validation_errors);
    collect(&groups)
}

/// The text that reports one violation: its message between single quotes, or
/// the empty text where it has no message.
pub fn handle_field_validation_error(validation_error: &ValidationError) -> (text: String)
    ensures
        text@ == violation_text(message_of(*validation_error)),
{
    let message = message(validation_error);
    format_violation(&message)
}

} // verus!
