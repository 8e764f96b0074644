//! Failures of the program as a whole.

use vstd::prelude::*;
use vstd::string::*;
use crate::application::errors::{ApplicationError, ApplicationErrorView};

verus! {

/// A failure of the program: of a use case, of the database, of the
/// configuration or of the chat service. All but the first keep a text only.
#[derive(Debug, PartialEq, Eq)]
pub enum AppError {
    Application(ApplicationError),
    Database(String),
    Config(String),
    Telegram(String),
}

/// What a program failure holds, as plain values.
pub enum AppErrorView {
    Application(ApplicationErrorView),
    Database(Seq<char>),
    Config(Seq<char>),
    Telegram(Seq<char>),
}

impl AppErrorView {
    /// The text of the failure; a use-case failure shows its own text.
    pub open spec fn message(self) -> Seq<char> {
        match self {
            AppErrorView::Application(e) => e.message(),
            AppErrorView::Database(m) => "Database error: "@ + m,
            AppErrorView::Config(m) => "Configuration error: "@ + m,
            AppErrorView::Telegram(m) => "Telegram error: "@ + m,
        }
    }
}

impl View for AppError {
    type V = AppErrorView;

    open spec fn view(&self) -> AppErrorView {
        match self {
            AppError::Application(e) => AppErrorView::Application(e@),
            AppError::Database(m) => AppErrorView::Database(m@),
            AppError::Config(m) => AppErrorView::Config(m@),
            AppError::Telegram(m) => AppErrorView::Telegram(m@),
        }
    }
}

impl AppError {
    /// The text of the failure.
    pub fn to_string(&self) -> (r: String)
        ensures
            r@ == self@.message(),
    {
        match self {
            AppError::Application(e) => e.to_string(),
            AppError::Database(m) => {
                let mut out = String::from_str("Database error: ");
                out.append(m.as_str());
                out
            },
            AppError::Config(m) => {
                let mut out = String::from_str("Configuration error: ");
                out.append(m.as_str());
                out
            },
            AppError::Telegram(m) => {
                let mut out = String::from_str("Telegram error: ");
                out.append(m.as_str());
                out
            },
        }
    }
}

} // verus!
