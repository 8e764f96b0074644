//! The workflow state of a card.
//!
//! Five states are kept: `Published` is a board-visible initial state of its
//! own, beside `Drafted`.

use vstd::prelude::*;
use vstd::string::*;
use crate::text::str_eq;

verus! {

/// Where a card stands in the workflow.
///
/// `Drafted`: created, not yet placed. `Published`: placed on a board when
/// created. `Triaged`: in a column, being worked on. `Closed`: resolved.
/// `NotNow`: postponed.
#[derive(Debug, Clone, Copy, PartialEq, Eq, Hash, Structural)]
pub enum CardStatus {
    Drafted,
    Triaged,
    Closed,
    NotNow,
    Published,
}

/// A text that names no card status.
#[derive(Debug, Clone, Copy, PartialEq, Eq, Structural)]
pub struct CardStatusError;

impl Default for CardStatus {
    fn default() -> (r: Self)
        ensures
            r == CardStatus::Drafted,
    {
        CardStatus::Drafted
    }
}

/// The status that a stored name stands for, if any.
pub open spec fn status_named(s: Seq<char>) -> Option<CardStatus> {
    if s == "drafted"@ {
        Some(CardStatus::Drafted)
    } else if s == "published"@ {
        Some(CardStatus::Published)
    } else if s == "triaged"@ {
        Some(CardStatus::Triaged)
    } else if s == "closed"@ {
        Some(CardStatus::Closed)
    } else if s == "not_now"@ {
        Some(CardStatus::NotNow)
    } else {
        None
    }
}

impl CardStatus {
    /// The name under which the status is stored.
    pub open spec fn storage_name(self) -> Seq<char> {
        match self {
            CardStatus::Drafted => "drafted"@,
            CardStatus::Triaged => "triaged"@,
            CardStatus::Closed => "closed"@,
            CardStatus::NotNow => "not_now"@,
            CardStatus::Published => "published"@,
        }
    }

    /// Whether a card in this status counts as active: every status but
    /// `Closed` and `NotNow`.
    pub open spec fn active(self) -> bool {
        self != CardStatus::Closed && self != CardStatus::NotNow
    }

    /// The name shown to people.
    pub open spec fn shown_name(self) -> Seq<char> {
        match self {
            CardStatus::Drafted => "Draft"@,
            CardStatus::Triaged => "Active"@,
            CardStatus::Closed => "Closed"@,
            CardStatus::NotNow => "Postponed"@,
            CardStatus::Published => "Published"@,
        }
    }

    /// The pictogram shown with the status.
    pub open spec fn pictogram(self) -> Seq<char> {
        match self {
            CardStatus::Drafted => "\u{1F4DD}"@,
            CardStatus::Triaged => "\u{1F4CB}"@,
            CardStatus::Closed => "\u{2705}"@,
            CardStatus::NotNow => "\u{23F8}\u{FE0F}"@,
            CardStatus::Published => "\u{1F4E2}"@,
        }
    }

    /// Reads a stored name.
    pub fn from_str(s: &str) -> (r: Result<CardStatus, CardStatusError>)
        ensures
            r == match status_named(s@) {
                Some(status) => Ok::<CardStatus, CardStatusError>(status),
                None => Err::<CardStatus, CardStatusError>(CardStatusError),
            },
    {
        if str_eq(s, "drafted") {
            Ok(CardStatus::Drafted)
        } else if str_eq(s, "published") {
            Ok(CardStatus::Published)
        } else if str_eq(s, "triaged") {
            Ok(CardStatus::Triaged)
        } else if str_eq(s, "closed") {
            Ok(CardStatus::Closed)
        } else if str_eq(s, "not_now") {
            Ok(CardStatus::NotNow)
        } else {
            Err(CardStatusError)
        }
    }

    /// The name under which the status is stored.
    pub fn as_str(&self) -> (r: &'static str)
        ensures
            r@ == self.storage_name(),
    {
        match self {
            CardStatus::Drafted => "drafted",
            CardStatus::Triaged => "triaged",
            CardStatus::Closed => "closed",
            CardStatus::NotNow => "not_now",
            CardStatus::Published => "published",
        }
    }

    /// Whether a card in this status counts as active.
    pub fn is_active(&self) -> (r: bool)
        ensures
            r == self.active(),
    {
        match self {
            CardStatus::Drafted | CardStatus::Triaged | CardStatus::Published => true,
            CardStatus::Closed | CardStatus::NotNow => false,
        }
    }

    /// The pictogram shown with the status.
    pub fn emoji(&self) -> (r: &'static str)
        ensures
            r@ == self.pictogram(),
    {
        match self {
            CardStatus::Drafted => "\u{1F4DD}",
            CardStatus::Triaged => "\u{1F4CB}",
            CardStatus::Closed => "\u{2705}",
            CardStatus::NotNow => "\u{23F8}\u{FE0F}",
            CardStatus::Published => "\u{1F4E2}",
        }
    }

    /// The name shown to people.
    pub fn display_name(&self) -> (r: &'static str)
        ensures
            r@ == self.shown_name(),
    {
        match self {
            CardStatus::Drafted => "Draft",
            CardStatus::Triaged => "Active",
            CardStatus::Closed => "Closed",
            CardStatus::NotNow => "Postponed",
            CardStatus::Published => "Published",
        }
    }

    /// The shown name, owned.
    pub fn to_string(&self) -> (r: String)
        ensures
            r@ == self.shown_name(),
    {
        String::from_str(self.display_name())
    }
}

impl CardStatusError {
    /// The text of the error.
    pub fn to_string(&self) -> (r: String)
        ensures
            r@ == "invalid card status"@,
    {
        String::from_str("invalid card status")
    }
}

/// Every status is read back from its stored name.
pub proof fn lemma_status_round_trip(status: CardStatus)
    ensures
        status_named(status.storage_name()) == Some(status),
{
    reveal_strlit("drafted");
    reveal_strlit("published");
    reveal_strlit("triaged");
    reveal_strlit("closed");
    reveal_strlit("not_now");
    assert("drafted"@.len() == 7 && "drafted"@[0] == 'd');
    assert("triaged"@.len() == 7 && "triaged"@[0] == 't');
    assert("not_now"@.len() == 7 && "not_now"@[0] == 'n');
    assert("published"@.len() == 9);
    assert("closed"@.len() == 6);
}

/// A text that names a status is the stored name of that status.
pub proof fn lemma_status_named(s: Seq<char>)
    ensures
        status_named(s) matches Some(status) ==> status.storage_name() == s,
{
}

} // verus!
