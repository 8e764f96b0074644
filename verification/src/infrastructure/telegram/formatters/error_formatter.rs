//! Failures as texts for people.

use vstd::prelude::*;
use vstd::string::*;
use crate::application::errors::{ApplicationError, ApplicationErrorView};

verus! {

pub struct ErrorFormatter;

/// The text shown for a failure. What went wrong inside is not shown.
pub open spec fn error_text(error: ApplicationErrorView) -> Seq<char> {
    match error {
        ApplicationErrorView::NotFound(m) => "Not found: "@ + m,
        ApplicationErrorView::Unauthorized(m) => "Access denied: "@ + m,
        ApplicationErrorView::InvalidInput(m) => "Invalid input: "@ + m,
        ApplicationErrorView::DomainError(e) => "Error: "@ + e.message(),
        ApplicationErrorView::InternalError(_) =>
            "An internal error occurred. Please try again later."@,
    }
}

impl ErrorFormatter {
    /// The text shown for a failure.
    pub fn format(error: &ApplicationError) -> (r: String)
        ensures
            r@ == error_text(error@),
    {
        match error {
            ApplicationError::NotFound(m) => {
                let mut out = String::from_str("Not found: ");
                out.append(m.as_str());
                out
            },
            ApplicationError::Unauthorized(m) => {
                let mut out = String::from_str("Access denied: ");
                out.append(m.as_str());
                out
            },
            ApplicationError::InvalidInput(m) => {
                let mut out = String::from_str("Invalid input: ");
                out.append(m.as_str());
                out
            },
            ApplicationError::DomainError(e) => {
                let mut out = String::from_str("Error: ");
                let text = e.to_string();
                out.append(text.as_str());
                out
            },
            ApplicationError::InternalError(_) => String::from_str(
                "An internal error occurred. Please try again later.",
            ),
        }
    }
}

} // verus!
