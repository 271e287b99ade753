//! Errors of the engine adapters, and how they become application errors.
use crate::application::error::AppError;
use crate::text::string_of;
use vstd::prelude::*;

verus! {

/// Why talking to the engine failed.
#[derive(Debug)]
pub enum InfraError {
    Docker(String),
    Connection(String),
    Serialization(String),
}

/// The message an adapter error is shown with.
pub open spec fn infra_error_text(e: InfraError) -> Seq<char> {
    match e {
        InfraError::Docker(m) => "Docker API error: "@ + m@,
        InfraError::Connection(m) => "Connection error: "@ + m@,
        InfraError::Serialization(m) => "Serialization error: "@ + m@,
    }
}

/// The application error for an adapter error: connection failures stay
/// connection failures, everything else is a repository failure, and the
/// explanation is kept.
pub open spec fn app_error_of(e: InfraError) -> AppError {
    match e {
        InfraError::Docker(m) => AppError::Repository(m),
        InfraError::Connection(m) => AppError::Connection(m),
        InfraError::Serialization(m) => AppError::Repository(m),
    }
}

impl InfraError {
    /// The message the error is shown with.
    pub fn to_text(&self) -> (r: String)
        ensures
            r@ == infra_error_text(*self),
    {
        let (prefix, body): (&str, &str) = match self {
            InfraError::Docker(m) => ("Docker API error: ", m.as_str()),
            InfraError::Connection(m) => ("Connection error: ", m.as_str()),
            InfraError::Serialization(m) => ("Serialization error: ", m.as_str()),
        };
        let mut out = string_of(prefix);
        crate::text::push_text(&mut out, body);
        out
    }
}

impl From<InfraError> for AppError {
    fn from(err: InfraError) -> (r: AppError) {
        match err {
            InfraError::Docker(msg) => AppError::Repository(msg),
            InfraError::Connection(msg) => AppError::Connection(msg),
            InfraError::Serialization(msg) => AppError::Repository(msg),
        }
    }
}

impl vstd::std_specs::convert::FromSpecImpl<InfraError> for AppError {
    open spec fn obeys_from_spec() -> bool {
        true
    }

    open spec fn from_spec(err: InfraError) -> AppError {
        app_error_of(err)
    }
}

} // verus!
