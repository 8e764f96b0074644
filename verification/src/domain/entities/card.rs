//! Cards: the work items.

use vstd::prelude::*;
use vstd::string::*;
use crate::domain::value_objects::card_status::CardStatus;
use crate::domain::value_objects::fizzy_id::FizzyId;
use crate::domain::value_objects::time::{Date, Timestamp};
use crate::text::{
    clone_opt_text, clone_texts, decimal_text, opt_text, push_decimal, push_trimmed_end, texts,
    trimmed_end,
};
use crate::sorting::Ranked;

verus! {

/// The characters of an optional identifier.
pub open spec fn opt_id(o: Option<FizzyId>) -> Option<Seq<char>> {
    match o {
        Some(id) => Some(id@),
        None => None,
    }
}

/// A copy of an optional identifier.
pub fn clone_opt_id(o: &Option<FizzyId>) -> (r: Option<FizzyId>)
    ensures
        opt_id(r) == opt_id(*o),
{
    match o {
        Some(id) => Some(id.clone()),
        None => None,
    }
}

/// A work item, with the display fields that a read resolves.
#[derive(Debug)]
pub struct Card {
    pub id: FizzyId,
    pub account_id: FizzyId,
    pub board_id: FizzyId,
    pub column_id: Option<FizzyId>,
    pub creator_id: FizzyId,
    /// Sequential number, unique within the account.
    pub number: i64,
    pub title: String,
    pub description: Option<String>,
    pub status: CardStatus,
    pub due_on: Option<Date>,
    /// Time of the last comment or other activity.
    pub last_active_at: Timestamp,
    pub created_at: Timestamp,
    pub updated_at: Timestamp,
    // Display fields, resolved when the card is read and never stored with it.
    pub board_name: Option<String>,
    pub column_name: Option<String>,
    pub column_color: Option<String>,
    pub creator_name: Option<String>,
    pub assignee_names: Vec<String>,
    pub tag_titles: Vec<String>,
    pub is_golden: bool,
}

/// What a card holds, as plain values.
pub struct CardView {
    pub id: Seq<char>,
    pub account_id: Seq<char>,
    pub board_id: Seq<char>,
    pub column_id: Option<Seq<char>>,
    pub creator_id: Seq<char>,
    pub number: i64,
    pub title: Seq<char>,
    pub description: Option<Seq<char>>,
    pub status: CardStatus,
    pub due_on: Option<Date>,
    pub last_active_at: Timestamp,
    pub created_at: Timestamp,
    pub updated_at: Timestamp,
    pub board_name: Option<Seq<char>>,
    pub column_name: Option<Seq<char>>,
    pub column_color: Option<Seq<char>>,
    pub creator_name: Option<Seq<char>>,
    pub assignee_names: Seq<Seq<char>>,
    pub tag_titles: Seq<Seq<char>>,
    pub is_golden: bool,
}

impl View for Card {
    type V = CardView;

    open spec fn view(&self) -> CardView {
        CardView {
            id: self.id@,
            account_id: self.account_id@,
            board_id: self.board_id@,
            column_id: opt_id(self.column_id),
            creator_id: self.creator_id@,
            number: self.number,
            title: self.title@,
            description: opt_text(self.description),
            status: self.status,
            due_on: self.due_on,
            last_active_at: self.last_active_at,
            created_at: self.created_at,
            updated_at: self.updated_at,
            board_name: opt_text(self.board_name),
            column_name: opt_text(self.column_name),
            column_color: opt_text(self.column_color),
            creator_name: opt_text(self.creator_name),
            assignee_names: texts(self.assignee_names@),
            tag_titles: texts(self.tag_titles@),
            is_golden: self.is_golden,
        }
    }
}

impl Clone for Card {
    fn clone(&self) -> (r: Self)
        ensures
            r@ == self@,
    {
        Card {
            id: self.id.clone(),
            account_id: self.account_id.clone(),
            board_id: self.board_id.clone(),
            column_id: clone_opt_id(&self.column_id),
            creator_id: self.creator_id.clone(),
            number: self.number,
            title: self.title.clone(),
            description: clone_opt_text(&self.description),
            status: self.status,
            due_on: self.due_on,
            last_active_at: self.last_active_at,
            created_at: self.created_at,
            updated_at: self.updated_at,
            board_name: clone_opt_text(&self.board_name),
            column_name: clone_opt_text(&self.column_name),
            column_color: clone_opt_text(&self.column_color),
            creator_name: clone_opt_text(&self.creator_name),
            assignee_names: clone_texts(&self.assignee_names),
            tag_titles: clone_texts(&self.tag_titles),
            is_golden: self.is_golden,
        }
    }
}

/// The address of a card in the web interface under `base`.
pub open spec fn web_address(base: Seq<char>, account_id: Seq<char>, number: int) -> Seq<char> {
    trimmed_end(base, '/') + seq!['/'] + account_id + "/cards/"@ + decimal_text(number)
}

impl Card {
    /// The number with `#` before it.
    pub fn formatted_number(&self) -> (r: String)
        ensures
            r@ == seq!['#'] + decimal_text(self.number as int),
    {
        let mut out = String::new();
        out.push('#');
        push_decimal(&mut out, self.number);
        assert(out@ =~= seq!['#'] + decimal_text(self.number as int));
        out
    }

    /// Whether the card's status counts as active.
    pub fn is_active(&self) -> (r: bool)
        ensures
            r == self.status.active(),
    {
        self.status.is_active()
    }

    /// The address of the card in the web interface, where a base address
    /// is given: the base without slashes at its end, then the account, then
    /// `cards` and the number.
    pub fn web_url(&self, base_url: Option<&str>) -> (r: Option<String>)
        ensures
            match base_url {
                Some(base) => r matches Some(url) && url@ == web_address(
                    base@,
                    self.account_id@,
                    self.number as int,
                ),
                None => r is None,
            },
    {
        match base_url {
            Some(base) => {
                let mut out = String::new();
                push_trimmed_end(&mut out, base, '/');
                out.push('/');
                out.append(self.account_id.as_str());
                out.append("/cards/");
                push_decimal(&mut out, self.number);
                assert(out@ =~= web_address(base@, self.account_id@, self.number as int));
                Some(out)
            },
            None => None,
        }
    }
}

/// Cards rank by their last activity, the most recent first.
impl Ranked for Card {
    open spec fn ranks_before(&self, other: &Self) -> bool {
        self.last_active_at.micros >= other.last_active_at.micros
    }

    fn is_ranked_before(&self, other: &Self) -> (r: bool) {
        self.last_active_at.micros >= other.last_active_at.micros
    }
}

/// The views of a list of cards.
pub open spec fn card_views(cards: Seq<Card>) -> Seq<CardView> {
    cards.map_values(|c: Card| c@)
}

} // verus!
