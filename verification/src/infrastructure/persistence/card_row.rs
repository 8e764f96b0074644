//! A card as a listing query returns it, before its relationships are
//! loaded.

use vstd::prelude::*;
use vstd::string::*;
use crate::domain::entities::card::{opt_id, Card, CardView};
use crate::domain::errors::{DomainError, DomainErrorView};
use crate::domain::value_objects::card_status::{status_named, CardStatus};
use crate::domain::value_objects::fizzy_id::FizzyId;
use crate::domain::value_objects::time::{Date, Timestamp};
use crate::text::{opt_text, texts};

verus! {

/// One row of a card query: the card's own fields, and the display fields
/// that the query's joins resolve. The names of assignees and the titles of
/// tags are no part of it; they are loaded for each row by a query of their
/// own, so that a card with many of them is still one row.
#[derive(Debug)]
pub struct CardRow {
    pub id: FizzyId,
    pub account_id: FizzyId,
    pub board_id: FizzyId,
    pub column_id: Option<FizzyId>,
    pub creator_id: FizzyId,
    pub number: i64,
    pub title: String,
    /// The stored name of the status.
    pub status: String,
    pub due_on: Option<Date>,
    pub last_active_at: Timestamp,
    pub created_at: Timestamp,
    pub updated_at: Timestamp,
    pub board_name: Option<String>,
    pub column_name: Option<String>,
    pub column_color: Option<String>,
    pub creator_name: Option<String>,
    pub is_golden: bool,
}

impl CardRow {
    /// The card that the row and its relationships make, for a status that
    /// the row's status name stands for.
    pub open spec fn card_view(
        self,
        status: CardStatus,
        assignee_names: Seq<Seq<char>>,
        tag_titles: Seq<Seq<char>>,
    ) -> CardView {
        CardView {
            id: self.id@,
            account_id: self.account_id@,
            board_id: self.board_id@,
            column_id: opt_id(self.column_id),
            creator_id: self.creator_id@,
            number: self.number,
            title: self.title@,
            description: None,
            status,
            due_on: self.due_on,
            last_active_at: self.last_active_at,
            created_at: self.created_at,
            updated_at: self.updated_at,
            board_name: opt_text(self.board_name),
            column_name: opt_text(self.column_name),
            column_color: opt_text(self.column_color),
            creator_name: opt_text(self.creator_name),
            assignee_names,
            tag_titles,
            is_golden: self.is_golden,
        }
    }

    /// Makes the card of a row and its relationships.
    ///
    /// Fails with `InvalidState` where the row's status names no status. The
    /// description is not part of a row and is left empty.
    pub fn into_card(self, assignee_names: Vec<String>, tag_titles: Vec<String>) -> (r: Result<
        Card,
        DomainError,
    >)
        ensures
            match status_named(self.status@) {
                Some(status) => r matches Ok(card) && card@ == self.card_view(
                    status,
                    texts(assignee_names@),
                    texts(tag_titles@),
                ),
                None => r matches Err(e) && e@ == (DomainErrorView::InvalidState {
                    message: "Invalid card status: "@ + self.status@,
                }),
            },
    {
        let status = match CardStatus::from_str(self.status.as_str()) {
            Ok(status) => status,
            Err(_) => {
                let mut message = String::from_str("Invalid card status: ");
                message.append(self.status.as_str());
                return Err(DomainError::InvalidState { message });
            },
        };
        Ok(
            Card {
                id: self.id,
                account_id: self.account_id,
                board_id: self.board_id,
                column_id: self.column_id,
                creator_id: self.creator_id,
                number: self.number,
                title: self.title,
                description: None,
                status,
                due_on: self.due_on,
                last_active_at: self.last_active_at,
                created_at: self.created_at,
                updated_at: self.updated_at,
                board_name: self.board_name,
                column_name: self.column_name,
                column_color: self.column_color,
                creator_name: self.creator_name,
                assignee_names,
                tag_titles,
                is_golden: self.is_golden,
            },
        )
    }
}

} // verus!
