//! What a guard hands back: a decoded value, a refusal with an HTTP status and a
//! message, or a request passed on to the next handler.

use vstd::prelude::*;

verus! {

/// The HTTP statuses with which the guard refuses a request.
#[derive(Clone, Copy, Debug, PartialEq, Eq, Structural)]
pub enum Status {
    /// 400: the body is not JSON, stops early, or breaks a validation rule.
    BadRequest,
    /// 422: the body is JSON of another shape than the one asked for.
    UnprocessableEntity,
    /// 500: the body could not be read.
    InternalServerError,
}

impl Status {
    /// The numeric code of the status.
    pub open spec fn spec_code(self) -> u16 {
        match self {
            Status::BadRequest => 400,
            Status::UnprocessableEntity => 422,
            Status::InternalServerError => 500,
        }
    }

    /// The numeric code of the status.
    #[verifier::when_used_as_spec(spec_code)]
    pub fn code(self) -> (code: u16)
        ensures
            code == self.spec_code(),
    {
        match self {
            Status::BadRequest => 400,
            Status::UnprocessableEntity => 422,
            Status::InternalServerError => 500,
        }
    }
}

/// A refusal: the status to answer with and the text that explains it.
#[derive(Debug, PartialEq, Eq)]
pub struct Rejection {
    pub status: Status,
    pub message: String,
}

/// The result of guarding one request body.
#[derive(Debug, PartialEq, Eq)]
pub enum Outcome<T> {
    /// The body was accepted; the value goes to the route handler.
    Success(T),
    /// The body was refused.
    Failure(Rejection),
    /// The guard does not handle this request; another handler may.
    Forward,
}

} // verus!
