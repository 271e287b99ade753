//! The error every use case reports.
use crate::domain::error::DomainError;
use crate::text::{push_text, string_of};
use vstd::prelude::*;

verus! {

/// Why a use case failed.
#[derive(Debug)]
pub enum AppError {
    Domain(DomainError),
    Repository(String),
    NotFound(String),
    OperationFailed(String),
    Connection(String),
}

/// The message an error is shown with: a prefix naming its kind, then the
/// explanation it carries.
pub open spec fn app_error_text(e: AppError) -> Seq<char> {
    match e {
        AppError::Domain(d) => "Domain error: "@ + d.message_view(),
        AppError::Repository(m) => "Repository error: "@ + m@,
        AppError::NotFound(m) => "Not found: "@ + m@,
        AppError::OperationFailed(m) => "Operation failed: "@ + m@,
        AppError::Connection(m) => "Connection error: "@ + m@,
    }
}

impl AppError {
    pub fn repository(msg: &str) -> (r: AppError)
        ensures
            r matches AppError::Repository(m) && m@ == msg@,
    {
        AppError::Repository(string_of(msg))
    }

    pub fn not_found(msg: &str) -> (r: AppError)
        ensures
            r matches AppError::NotFound(m) && m@ == msg@,
    {
        AppError::NotFound(string_of(msg))
    }

    pub fn operation_failed(msg: &str) -> (r: AppError)
        ensures
            r matches AppError::OperationFailed(m) && m@ == msg@,
    {
        AppError::OperationFailed(string_of(msg))
    }

    pub fn connection(msg: &str) -> (r: AppError)
        ensures
            r matches AppError::Connection(m) && m@ == msg@,
    {
        AppError::Connection(string_of(msg))
    }

    /// The message the error is shown with.
    pub fn to_text(&self) -> (r: String)
        ensures
            r@ == app_error_text(*self),
    {
        let (prefix, body): (&str, &str) = match self {
            AppError::Domain(d) => ("Domain error: ", d.message()),
            AppError::Repository(m) => ("Repository error: ", m.as_str()),
            AppError::NotFound(m) => ("Not found: ", m.as_str()),
            AppError::OperationFailed(m) => ("Operation failed: ", m.as_str()),
            AppError::Connection(m) => ("Connection error: ", m.as_str()),
        };
        let mut out = string_of(prefix);
        push_text(&mut out, body);
        out
    }
}

impl From<DomainError> for AppError {
    fn from(e: DomainError) -> (r: AppError) {
        AppError::Domain(e)
    }
}

impl vstd::std_specs::convert::FromSpecImpl<DomainError> for AppError {
    open spec fn obeys_from_spec() -> bool {
        true
    }

    open spec fn from_spec(e: DomainError) -> AppError {
        AppError::Domain(e)
    }
}

} // verus!
