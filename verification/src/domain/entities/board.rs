//! Boards: named collections of cards.

use vstd::prelude::*;
use crate::domain::value_objects::fizzy_id::FizzyId;
use crate::domain::value_objects::time::Timestamp;
use crate::sorting::Ranked;
use crate::text::{lex_less, text_le};

verus! {

/// A named collection of cards within an account.
#[derive(Debug)]
pub struct Board {
    pub id: FizzyId,
    pub account_id: FizzyId,
    pub creator_id: FizzyId,
    pub name: String,
    /// Whether every user of the account may read and write its cards.
    pub all_access: bool,
    pub created_at: Timestamp,
    pub updated_at: Timestamp,
    /// Number of cards that are neither closed nor postponed, where known.
    pub card_count: Option<i64>,
}

/// What a board holds, as plain values.
pub struct BoardView {
    pub id: Seq<char>,
    pub account_id: Seq<char>,
    pub creator_id: Seq<char>,
    pub name: Seq<char>,
    pub all_access: bool,
    pub created_at: Timestamp,
    pub updated_at: Timestamp,
    pub card_count: Option<i64>,
}

impl View for Board {
    type V = BoardView;

    open spec fn view(&self) -> BoardView {
        BoardView {
            id: self.id@,
            account_id: self.account_id@,
            creator_id: self.creator_id@,
            name: self.name@,
            all_access: self.all_access,
            created_at: self.created_at,
            updated_at: self.updated_at,
            card_count: self.card_count,
        }
    }
}

impl Clone for Board {
    fn clone(&self) -> (r: Self)
        ensures
            r@ == self@,
    {
        Board {
            id: self.id.clone(),
            account_id: self.account_id.clone(),
            creator_id: self.creator_id.clone(),
            name: self.name.clone(),
            all_access: self.all_access,
            created_at: self.created_at,
            updated_at: self.updated_at,
            card_count: self.card_count,
        }
    }
}

impl Board {
    /// Whether the board is open to every user of its account.
    pub fn is_public(&self) -> (r: bool)
        ensures
            r == self.all_access,
    {
        self.all_access
    }
}

/// Boards rank by name, in the order of the names' characters.
impl Ranked for Board {
    open spec fn ranks_before(&self, other: &Self) -> bool {
        self.name@ == other.name@ || lex_less(self.name@, other.name@)
    }

    fn is_ranked_before(&self, other: &Self) -> (r: bool) {
        text_le(self.name.as_str(), other.name.as_str())
    }
}

/// The views of a list of boards.
pub open spec fn board_views(boards: Seq<Board>) -> Seq<BoardView> {
    boards.map_values(|b: Board| b@)
}

} // verus!
