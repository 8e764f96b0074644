//! Failures of a use case, as its caller sees them.

use vstd::prelude::*;
use vstd::string::*;
use crate::domain::errors::{DomainError, DomainErrorView};

verus! {

/// A failure of a business operation.
#[derive(Debug, PartialEq, Eq)]
pub enum ApplicationError {
    /// A referenced entity does not exist; the text names it.
    NotFound(String),
    /// The acting user may not do this.
    Unauthorized(String),
    /// The input breaks a rule of the operation.
    InvalidInput(String),
    /// A store operation failed.
    DomainError(DomainError),
    /// The operation was driven in a way it does not allow.
    InternalError(String),
}

/// What a use-case failure holds, as plain values.
pub enum ApplicationErrorView {
    NotFound(Seq<char>),
    Unauthorized(Seq<char>),
    InvalidInput(Seq<char>),
    DomainError(DomainErrorView),
    InternalError(Seq<char>),
}

impl ApplicationErrorView {
    /// The text of the failure; a store failure shows its own text.
    pub open spec fn message(self) -> Seq<char> {
        match self {
            ApplicationErrorView::NotFound(m) => "Not found: "@ + m,
            ApplicationErrorView::Unauthorized(m) => "Unauthorized: "@ + m,
            ApplicationErrorView::InvalidInput(m) => "Invalid input: "@ + m,
            ApplicationErrorView::DomainError(e) => e.message(),
            ApplicationErrorView::InternalError(m) => "Internal error: "@ + m,
        }
    }
}

impl View for ApplicationError {
    type V = ApplicationErrorView;

    open spec fn view(&self) -> ApplicationErrorView {
        match self {
            ApplicationError::NotFound(m) => ApplicationErrorView::NotFound(m@),
            ApplicationError::Unauthorized(m) => ApplicationErrorView::Unauthorized(m@),
            ApplicationError::InvalidInput(m) => ApplicationErrorView::InvalidInput(m@),
            ApplicationError::DomainError(e) => ApplicationErrorView::DomainError(e@),
            ApplicationError::InternalError(m) => ApplicationErrorView::InternalError(m@),
        }
    }
}

impl Clone for ApplicationError {
    fn clone(&self) -> (r: Self)
        ensures
            r@ == self@,
    {
        match self {
            ApplicationError::NotFound(m) => ApplicationError::NotFound(m.clone()),
            ApplicationError::Unauthorized(m) => ApplicationError::Unauthorized(m.clone()),
            ApplicationError::InvalidInput(m) => ApplicationError::InvalidInput(m.clone()),
            ApplicationError::DomainError(e) => ApplicationError::DomainError(e.clone()),
            ApplicationError::InternalError(m) => ApplicationError::InternalError(m.clone()),
        }
    }
}

impl ApplicationError {
    /// The text of the failure.
    pub fn to_string(&self) -> (r: String)
        ensures
            r@ == self@.message(),
    {
        match self {
            ApplicationError::NotFound(m) => {
                let mut out = String::from_str("Not found: ");
                out.append(m.as_str());
                out
            },
            ApplicationError::Unauthorized(m) => {
                let mut out = String::from_str("Unauthorized: ");
                out.append(m.as_str());
                out
            },
            ApplicationError::InvalidInput(m) => {
                let mut out = String::from_str("Invalid input: ");
                out.append(m.as_str());
                out
            },
            ApplicationError::DomainError(e) => e.to_string(),
            ApplicationError::InternalError(m) => {
                let mut out = String::from_str("Internal error: ");
                out.append(m.as_str());
                out
            },
        }
    }
}

} // verus!
