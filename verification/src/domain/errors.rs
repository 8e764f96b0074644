//! Failures of a single store operation.

use vstd::prelude::*;
use vstd::string::*;

verus! {

/// A failure local to one store operation.
#[derive(Debug, PartialEq, Eq)]
pub enum DomainError {
    /// No entity of this kind has this identifier.
    NotFound { entity: String, id: String },
    /// The stored state does not allow the operation.
    InvalidState { message: String },
    /// A field of the input is not acceptable.
    ValidationFailed { field: String, reason: String },
    /// The store itself failed; only its message is kept.
    InfrastructureError(String),
}

/// What a store failure holds, as plain values.
pub enum DomainErrorView {
    NotFound { entity: Seq<char>, id: Seq<char> },
    InvalidState { message: Seq<char> },
    ValidationFailed { field: Seq<char>, reason: Seq<char> },
    InfrastructureError(Seq<char>),
}

impl DomainErrorView {
    /// The text of the failure.
    pub open spec fn message(self) -> Seq<char> {
        match self {
            DomainErrorView::NotFound { entity, id } => "Entity '"@ + entity + "' with id '"@ + id
                + "' not found"@,
            DomainErrorView::InvalidState { message } => "Invalid state: "@ + message,
            DomainErrorView::ValidationFailed { field, reason } => "Validation failed for field '"@
                + field + "': "@ + reason,
            DomainErrorView::InfrastructureError(message) => "Infrastructure error: "@ + message,
        }
    }
}

impl View for DomainError {
    type V = DomainErrorView;

    open spec fn view(&self) -> DomainErrorView {
        match self {
            DomainError::NotFound { entity, id } => DomainErrorView::NotFound {
                entity: entity@,
                id: id@,
            },
            DomainError::InvalidState { message } => DomainErrorView::InvalidState {
                message: message@,
            },
            DomainError::ValidationFailed { field, reason } => DomainErrorView::ValidationFailed {
                field: field@,
                reason: reason@,
            },
            DomainError::InfrastructureError(message) => DomainErrorView::InfrastructureError(
                message@,
            ),
        }
    }
}

impl Clone for DomainError {
    fn clone(&self) -> (r: Self)
        ensures
            r@ == self@,
    {
        match self {
            DomainError::NotFound { entity, id } => DomainError::NotFound {
                entity: entity.clone(),
                id: id.clone(),
            },
            DomainError::InvalidState { message } => DomainError::InvalidState {
                message: message.clone(),
            },
            DomainError::ValidationFailed { field, reason } => DomainError::ValidationFailed {
                field: field.clone(),
                reason: reason.clone(),
            },
            DomainError::InfrastructureError(message) => DomainError::InfrastructureError(
                message.clone(),
            ),
        }
    }
}

impl DomainError {
    /// The text of the failure.
    pub fn to_string(&self) -> (r: String)
        ensures
            r@ == self@.message(),
    {
        match self {
            DomainError::NotFound { entity, id } => {
                let mut out = String::from_str("Entity '");
                out.append(entity.as_str());
                out.append("' with id '");
                out.append(id.as_str());
                out.append("' not found");
                out
            },
            DomainError::InvalidState { message } => {
                let mut out = String::from_str("Invalid state: ");
                out.append(message.as_str());
                out
            },
            DomainError::ValidationFailed { field, reason } => {
                let mut out = String::from_str("Validation failed for field '");
                out.append(field.as_str());
                out.append("': ");
                out.append(reason.as_str());
                out
            },
            DomainError::InfrastructureError(message) => {
                let mut out = String::from_str("Infrastructure error: ");
                out.append(message.as_str());
                out
            },
        }
    }
}

} // verus!
