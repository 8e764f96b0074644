//! What goes into the card store: inputs of its writes and the filter of
//! its listing.

use vstd::prelude::*;
use crate::domain::entities::card::{clone_opt_id, opt_id};
use crate::domain::value_objects::card_status::CardStatus;
use crate::domain::value_objects::fizzy_id::FizzyId;
use crate::domain::value_objects::time::{Date, Timestamp};
use crate::text::{clone_opt_text, opt_text};

verus! {

/// What is needed to create a card.
#[derive(Debug)]
pub struct CreateCardInput {
    pub board_id: FizzyId,
    pub creator_id: FizzyId,
    pub title: String,
    pub description: Option<String>,
    pub status: CardStatus,
    pub column_id: Option<FizzyId>,
}

/// A partial update of a card: a field that is `None` keeps its stored
/// value.
#[derive(Debug)]
pub struct UpdateCardInput {
    pub title: Option<String>,
    pub description: Option<String>,
    pub status: Option<CardStatus>,
    pub column_id: Option<FizzyId>,
    pub due_on: Option<Date>,
}

/// What the input of a creation holds, as plain values.
pub struct CreateCardInputView {
    pub board_id: Seq<char>,
    pub creator_id: Seq<char>,
    pub title: Seq<char>,
    pub description: Option<Seq<char>>,
    pub status: CardStatus,
    pub column_id: Option<Seq<char>>,
}

impl View for CreateCardInput {
    type V = CreateCardInputView;

    open spec fn view(&self) -> CreateCardInputView {
        CreateCardInputView {
            board_id: self.board_id@,
            creator_id: self.creator_id@,
            title: self.title@,
            description: opt_text(self.description),
            status: self.status,
            column_id: opt_id(self.column_id),
        }
    }
}

/// What the input of an update holds, as plain values.
pub struct UpdateCardInputView {
    pub title: Option<Seq<char>>,
    pub description: Option<Seq<char>>,
    pub status: Option<CardStatus>,
    pub column_id: Option<Seq<char>>,
    pub due_on: Option<Date>,
}

impl UpdateCardInputView {
    /// The update that changes nothing.
    pub open spec fn empty() -> UpdateCardInputView {
        UpdateCardInputView {
            title: None,
            description: None,
            status: None,
            column_id: None,
            due_on: None,
        }
    }
}

impl View for UpdateCardInput {
    type V = UpdateCardInputView;

    open spec fn view(&self) -> UpdateCardInputView {
        UpdateCardInputView {
            title: opt_text(self.title),
            description: opt_text(self.description),
            status: self.status,
            column_id: opt_id(self.column_id),
            due_on: self.due_on,
        }
    }
}

impl Default for UpdateCardInput {
    fn default() -> (r: Self)
        ensures
            r@ == UpdateCardInputView::empty(),
    {
        UpdateCardInput { title: None, description: None, status: None, column_id: None, due_on: None }
    }
}

/// The statuses of an optional list.
pub open spec fn opt_statuses(o: Option<Vec<CardStatus>>) -> Option<Seq<CardStatus>> {
    match o {
        Some(v) => Some(v@),
        None => None,
    }
}

/// A copy of an optional list of statuses.
pub fn clone_opt_statuses(o: &Option<Vec<CardStatus>>) -> (r: Option<Vec<CardStatus>>)
    ensures
        opt_statuses(r) == opt_statuses(*o),
{
    match o {
        Some(v) => {
            let mut out: Vec<CardStatus> = Vec::new();
            let mut i: usize = 0;
            while i < v.len()
                invariant
                    i <= v.len(),
                    out@ == v@.take(i as int),
                decreases v.len() - i,
            {
                out.push(v[i]);
                assert(v@.take(i as int).push(v@[i as int]) =~= v@.take(i + 1));
                i += 1;
            }
            assert(v@.take(v.len() as int) =~= v@);
            Some(out)
        },
        None => None,
    }
}

/// Which cards a listing returns, and how many of them.
///
/// Every field is optional and the fields that are set are all applied.
/// `creator_id` is carried along but selects nothing.
#[derive(Debug)]
pub struct CardFilters {
    /// Only cards assigned to this user.
    pub assignee_id: Option<FizzyId>,
    pub creator_id: Option<FizzyId>,
    /// Only cards of this board.
    pub board_id: Option<FizzyId>,
    /// Only cards in this column.
    pub column_id: Option<FizzyId>,
    /// Only cards in one of these statuses; an empty list selects nothing out.
    pub status: Option<Vec<CardStatus>>,
    /// No cards in one of these statuses.
    pub exclude_status: Option<Vec<CardStatus>>,
    /// Only cards that are golden, or only cards that are not.
    pub is_golden: Option<bool>,
    /// At most this many cards, after ordering.
    pub limit: Option<i64>,
    /// Without this many cards at the start, after ordering.
    pub offset: Option<i64>,
}

/// What a filter holds, as plain values.
pub struct CardFiltersView {
    pub assignee_id: Option<Seq<char>>,
    pub creator_id: Option<Seq<char>>,
    pub board_id: Option<Seq<char>>,
    pub column_id: Option<Seq<char>>,
    pub status: Option<Seq<CardStatus>>,
    pub exclude_status: Option<Seq<CardStatus>>,
    pub is_golden: Option<bool>,
    pub limit: Option<i64>,
    pub offset: Option<i64>,
}

/// What a filter reads of a card.
pub struct CardFacts {
    pub account_id: Seq<char>,
    pub board_id: Seq<char>,
    pub column_id: Option<Seq<char>>,
    pub status: CardStatus,
    pub is_golden: bool,
    /// The users that the card is assigned to.
    pub assignee_ids: Seq<Seq<char>>,
    pub last_active_at: Timestamp,
}

impl CardFiltersView {
    /// Whether a card passes the filter: it passes every field that is set.
    pub open spec fn matches(self, card: CardFacts) -> bool {
        &&& self.assignee_id matches Some(user) ==> card.assignee_ids.contains(user)
        &&& self.board_id matches Some(board) ==> card.board_id == board
        &&& self.column_id matches Some(column) ==> card.column_id == Some(column)
        &&& self.status matches Some(allowed) ==> allowed.len() > 0 ==> allowed.contains(card.status)
        &&& self.exclude_status matches Some(denied) ==> !denied.contains(card.status)
        &&& self.is_golden matches Some(golden) ==> card.is_golden == golden
    }

    /// The filter that selects every card and cuts nothing off.
    pub open spec fn empty() -> CardFiltersView {
        CardFiltersView {
            assignee_id: None,
            creator_id: None,
            board_id: None,
            column_id: None,
            status: None,
            exclude_status: None,
            is_golden: None,
            limit: None,
            offset: None,
        }
    }
}

impl View for CardFilters {
    type V = CardFiltersView;

    open spec fn view(&self) -> CardFiltersView {
        CardFiltersView {
            assignee_id: opt_id(self.assignee_id),
            creator_id: opt_id(self.creator_id),
            board_id: opt_id(self.board_id),
            column_id: opt_id(self.column_id),
            status: opt_statuses(self.status),
            exclude_status: opt_statuses(self.exclude_status),
            is_golden: self.is_golden,
            limit: self.limit,
            offset: self.offset,
        }
    }
}

impl Default for CardFilters {
    fn default() -> (r: Self)
        ensures
            r@ == CardFiltersView::empty(),
    {
        CardFilters {
            assignee_id: None,
            creator_id: None,
            board_id: None,
            column_id: None,
            status: None,
            exclude_status: None,
            is_golden: None,
            limit: None,
            offset: None,
        }
    }
}

impl Clone for CardFilters {
    fn clone(&self) -> (r: Self)
        ensures
            r@ == self@,
    {
        CardFilters {
            assignee_id: clone_opt_id(&self.assignee_id),
            creator_id: clone_opt_id(&self.creator_id),
            board_id: clone_opt_id(&self.board_id),
            column_id: clone_opt_id(&self.column_id),
            status: clone_opt_statuses(&self.status),
            exclude_status: clone_opt_statuses(&self.exclude_status),
            is_golden: self.is_golden,
            limit: self.limit,
            offset: self.offset,
        }
    }
}

impl Clone for CreateCardInput {
    fn clone(&self) -> (r: Self)
        ensures
            r@ == self@,
    {
        CreateCardInput {
            board_id: self.board_id.clone(),
            creator_id: self.creator_id.clone(),
            title: self.title.clone(),
            description: clone_opt_text(&self.description),
            status: self.status,
            column_id: clone_opt_id(&self.column_id),
        }
    }
}

impl Clone for UpdateCardInput {
    fn clone(&self) -> (r: Self)
        ensures
            r@ == self@,
    {
        UpdateCardInput {
            title: clone_opt_text(&self.title),
            description: clone_opt_text(&self.description),
            status: self.status,
            column_id: clone_opt_id(&self.column_id),
            due_on: self.due_on,
        }
    }
}

impl CardFiltersView {
    /// Whether two filters set no field in common; the limit and the
    /// offset, which select nothing, do not count.
    pub open spec fn disjoint_from(self, other: CardFiltersView) -> bool {
        &&& self.assignee_id is None || other.assignee_id is None
        &&& self.board_id is None || other.board_id is None
        &&& self.column_id is None || other.column_id is None
        &&& self.status is None || other.status is None
        &&& self.exclude_status is None || other.exclude_status is None
        &&& self.is_golden is None || other.is_golden is None
    }

    /// The filter that sets the fields of both; where both set a field,
    /// `self` wins.
    pub open spec fn merged_with(self, other: CardFiltersView) -> CardFiltersView {
        CardFiltersView {
            assignee_id: if self.assignee_id is Some {
                self.assignee_id
            } else {
                other.assignee_id
            },
            creator_id: if self.creator_id is Some {
                self.creator_id
            } else {
                other.creator_id
            },
            board_id: if self.board_id is Some {
                self.board_id
            } else {
                other.board_id
            },
            column_id: if self.column_id is Some {
                self.column_id
            } else {
                other.column_id
            },
            status: if self.status is Some {
                self.status
            } else {
                other.status
            },
            exclude_status: if self.exclude_status is Some {
                self.exclude_status
            } else {
                other.exclude_status
            },
            is_golden: if self.is_golden is Some {
                self.is_golden
            } else {
                other.is_golden
            },
            limit: if self.limit is Some {
                self.limit
            } else {
                other.limit
            },
            offset: if self.offset is Some {
                self.offset
            } else {
                other.offset
            },
        }
    }
}

/// Filters compose: a card passes two filters that set no field in common
/// exactly when it passes the filter that sets the fields of both.
pub proof fn lemma_disjoint_filters_compose(a: CardFiltersView, b: CardFiltersView, card: CardFacts)
    requires
        a.disjoint_from(b),
    ensures
        a.merged_with(b).matches(card) <==> a.matches(card) && b.matches(card),
{
}

/// The filter that sets nothing lets every card pass.
pub proof fn lemma_empty_filter_matches(card: CardFacts)
    ensures
        CardFiltersView::empty().matches(card),
{
}

} // verus!
