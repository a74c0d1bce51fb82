//! The envelope: one value of three shapes, and uniform access to its fields.

use vstd::prelude::*;
use crate::status::Status;

verus! {

/// A response envelope, generic over the payload `T` that the caller chooses.
///
/// Exactly one of the three shapes holds. An envelope is a plain value: it is
/// built once by one of the constructors and only read afterwards.
#[derive(Debug, Clone, PartialEq, Hash)]
#[allow(inconsistent_fields)]
pub enum JSendResponse<T> {
    /// The call went well.
    Success {
        /// What the call produced, or `None` where it produces nothing.
        data: Option<T>,
    },
    /// The call was refused for a reason that the caller can mend.
    Fail {
        /// Why the call was refused. It is always there.
        data: T,
    },
    /// The call broke on the server's side.
    Error {
        /// What went wrong, for a reader or a log.
        message: String,
        /// A number for the kind of error, where there is one.
        code: Option<i64>,
        /// More on the error, where there is any.
        data: Option<T>,
    },
}

impl<T> JSendResponse<T> {
    /// The payload as it reads from any shape: what a `Success` or an `Error`
    /// carries, if it carries anything, and what a `Fail` carries always.
    pub open spec fn spec_data(&self) -> Option<&T> {
        match self {
            JSendResponse::Success { data: Some(d) } => Some(d),
            JSendResponse::Success { data: None } => None,
            JSendResponse::Fail { data } => Some(data),
            JSendResponse::Error { data: Some(d), .. } => Some(d),
            JSendResponse::Error { data: None, .. } => None,
        }
    }

    /// The message of an `Error`; no other shape has one.
    pub open spec fn spec_message(&self) -> Option<&String> {
        match self {
            JSendResponse::Error { message, .. } => Some(message),
            _ => None,
        }
    }

    /// The code of an `Error` that was given one; nothing otherwise.
    pub open spec fn spec_code(&self) -> Option<&i64> {
        match self {
            JSendResponse::Error { code: Some(c), .. } => Some(c),
            _ => None,
        }
    }

    /// The kind that this envelope is of.
    pub open spec fn spec_status(&self) -> Status {
        match self {
            JSendResponse::Success { .. } => Status::Success,
            JSendResponse::Fail { .. } => Status::Fail,
            JSendResponse::Error { .. } => Status::Error,
        }
    }

    /// A `Success` around `data`.
    pub open spec fn spec_success(data: Option<T>) -> JSendResponse<T> {
        JSendResponse::Success { data }
    }

    /// A `Fail` around `data`.
    pub open spec fn spec_fail(data: T) -> JSendResponse<T> {
        JSendResponse::Fail { data }
    }

    /// An `Error` of the three fields.
    pub open spec fn spec_error(message: String, code: Option<i64>, data: Option<T>) -> JSendResponse<
        T,
    > {
        JSendResponse::Error { message, code, data }
    }

    /// The same envelope with its payload behind a reference.
    pub open spec fn spec_as_ref(&self) -> JSendResponse<&T> {
        match self {
            JSendResponse::Success { data: Some(d) } => JSendResponse::Success { data: Some(d) },
            JSendResponse::Success { data: None } => JSendResponse::Success { data: None },
            JSendResponse::Fail { data } => JSendResponse::Fail { data },
            JSendResponse::Error { message, code, data: Some(d) } => JSendResponse::Error {
                message: *message,
                code: *code,
                data: Some(d),
            },
            JSendResponse::Error { message, code, data: None } => JSendResponse::Error {
                message: *message,
                code: *code,
                data: None,
            },
        }
    }

    /// Builds a `Success` around `data`, absent or present as given.
    #[verifier::when_used_as_spec(spec_success)]
    pub fn success(data: Option<T>) -> (r: JSendResponse<T>)
        ensures
            r == (JSendResponse::Success { data }),
    {
        JSendResponse::Success { data }
    }

    /// Builds a `Fail` around `data`.
    #[verifier::when_used_as_spec(spec_fail)]
    pub fn fail(data: T) -> (r: JSendResponse<T>)
        ensures
            r == (JSendResponse::Fail { data }),
    {
        JSendResponse::Fail { data }
    }

    /// Builds an `Error` that holds the three fields as given.
    #[verifier::when_used_as_spec(spec_error)]
    pub fn error(message: String, code: Option<i64>, data: Option<T>) -> (r: JSendResponse<T>)
        ensures
            r == (JSendResponse::Error { message, code, data }),
    {
        JSendResponse::Error { message, code, data }
    }

    /// The kind that this envelope is of.
    #[verifier::when_used_as_spec(spec_status)]
    pub fn status(&self) -> (r: Status)
        ensures
            r == self.spec_status(),
    {
        match self {
            JSendResponse::Success { .. } => Status::Success,
            JSendResponse::Fail { .. } => Status::Fail,
            JSendResponse::Error { .. } => Status::Error,
        }
    }

    /// Lends the envelope out: the same kind and fields, the payload behind a
    /// reference. The message of an `Error` is copied.
    #[verifier::when_used_as_spec(spec_as_ref)]
    pub fn as_ref(&self) -> (r: JSendResponse<&T>)
        ensures
            r == self.spec_as_ref(),
    {
        match self {
            JSendResponse::Success { data } => JSendResponse::Success { data: data.as_ref() },
            JSendResponse::Fail { data } => JSendResponse::Fail { data },
            JSendResponse::Error { message, code, data } => JSendResponse::Error {
                message: message.clone(),
                code: *code,
                data: data.as_ref(),
            },
        }
    }

    /// The payload, read without asking for the shape.
    #[verifier::when_used_as_spec(spec_data)]
    pub fn data(&self) -> (r: Option<&T>)
        ensures
            r == self.spec_data(),
    {
        match self {
            JSendResponse::Success { data } => data.as_ref(),
            JSendResponse::Fail { data } => Some(data),
            JSendResponse::Error { data, .. } => data.as_ref(),
        }
    }

    /// The message, read without asking for the shape.
    #[verifier::when_used_as_spec(spec_message)]
    pub fn message(&self) -> (r: Option<&String>)
        ensures
            r == self.spec_message(),
    {
        match self {
            JSendResponse::Error { message, .. } => Some(message),
            _ => None,
        }
    }

    /// The code, read without asking for the shape.
    #[verifier::when_used_as_spec(spec_code)]
    pub fn code(&self) -> (r: Option<&i64>)
        ensures
            r == self.spec_code(),
    {
        match self {
            JSendResponse::Error { code, .. } => code.as_ref(),
            _ => None,
        }
    }
}

} // verus!
