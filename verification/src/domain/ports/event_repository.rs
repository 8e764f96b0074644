//! What goes into the audit trail.

use vstd::prelude::*;
use crate::domain::value_objects::fizzy_id::FizzyId;
use crate::text::texts;
use vstd::string::*;

verus! {

/// The details recorded with an event.
#[derive(Debug)]
pub enum Particulars {
    /// No details.
    Empty,
    /// The card that a new comment belongs to.
    CardId(FizzyId),
    /// The column that a card was moved to.
    ColumnId(FizzyId),
}

/// What the details of an event hold, as plain values.
pub enum ParticularsView {
    Empty,
    CardId(Seq<char>),
    ColumnId(Seq<char>),
}

impl View for Particulars {
    type V = ParticularsView;

    open spec fn view(&self) -> ParticularsView {
        match self {
            Particulars::Empty => ParticularsView::Empty,
            Particulars::CardId(id) => ParticularsView::CardId(id@),
            Particulars::ColumnId(id) => ParticularsView::ColumnId(id@),
        }
    }
}

impl Clone for Particulars {
    fn clone(&self) -> (r: Self)
        ensures
            r@ == self@,
    {
        match self {
            Particulars::Empty => Particulars::Empty,
            Particulars::CardId(id) => Particulars::CardId(id.clone()),
            Particulars::ColumnId(id) => Particulars::ColumnId(id.clone()),
        }
    }
}

/// One entry for the audit trail: who did what to which entity.
#[derive(Debug)]
pub struct CreateEventInput {
    pub board_id: FizzyId,
    /// The entity that the event is about.
    pub eventable_id: FizzyId,
    /// The kind of that entity: `Card` or `Comment`.
    pub eventable_type: String,
    pub creator_id: FizzyId,
    /// One of the names in `event_actions`.
    pub action: String,
    pub particulars: Particulars,
}

/// What an audit entry holds, as plain values.
pub struct CreateEventInputView {
    pub board_id: Seq<char>,
    pub eventable_id: Seq<char>,
    pub eventable_type: Seq<char>,
    pub creator_id: Seq<char>,
    pub action: Seq<char>,
    pub particulars: ParticularsView,
}

impl View for CreateEventInput {
    type V = CreateEventInputView;

    open spec fn view(&self) -> CreateEventInputView {
        CreateEventInputView {
            board_id: self.board_id@,
            eventable_id: self.eventable_id@,
            eventable_type: self.eventable_type@,
            creator_id: self.creator_id@,
            action: self.action@,
            particulars: self.particulars@,
        }
    }
}

impl Clone for CreateEventInput {
    fn clone(&self) -> (r: Self)
        ensures
            r@ == self@,
    {
        CreateEventInput {
            board_id: self.board_id.clone(),
            eventable_id: self.eventable_id.clone(),
            eventable_type: self.eventable_type.clone(),
            creator_id: self.creator_id.clone(),
            action: self.action.clone(),
            particulars: self.particulars.clone(),
        }
    }
}

/// The text of a JSON object whose members have the given names and, as
/// their values, the given strings, as `serde_json` writes it.
pub uninterp spec fn json_object_text(names: Seq<Seq<char>>, values: Seq<Seq<char>>) -> Seq<char>;

/// `serde_json::Map::insert` puts a member into a JSON object, and the
/// `Display` of `serde_json::Value` writes the object as compact JSON text.
/// Taken on trust: the text depends on nothing but the names and the values,
/// and is what `json_object_text` names.
#[verifier::external_body]
fn json_object(names: &Vec<String>, values: &Vec<String>) -> (r: String)
    requires
        names@.len() == values@.len(),
    ensures
        r@ == json_object_text(texts(names@), texts(values@)),
{
    let mut members = serde_json::Map::new();
    for (name, value) in names.iter().zip(values.iter()) {
        members.insert(name.clone(), serde_json::Value::String(value.clone()));
    }
    serde_json::Value::Object(members).to_string()
}

impl ParticularsView {
    /// The names of the details.
    pub open spec fn names(self) -> Seq<Seq<char>> {
        match self {
            ParticularsView::Empty => Seq::empty(),
            ParticularsView::CardId(_) => seq!["card_id"@],
            ParticularsView::ColumnId(_) => seq!["column_id"@],
        }
    }

    /// The values of the details.
    pub open spec fn values(self) -> Seq<Seq<char>> {
        match self {
            ParticularsView::Empty => Seq::empty(),
            ParticularsView::CardId(id) => seq![id],
            ParticularsView::ColumnId(id) => seq![id],
        }
    }
}

impl Particulars {
    /// The details as the text of a JSON object: no member for no details,
    /// and else one member, named `card_id` or `column_id`, with the
    /// identifier as its value.
    pub fn to_json(&self) -> (r: String)
        ensures
            r@ == json_object_text(self@.names(), self@.values()),
    {
        let mut names: Vec<String> = Vec::new();
        let mut values: Vec<String> = Vec::new();
        match self {
            Particulars::Empty => {},
            Particulars::CardId(id) => {
                names.push(String::from_str("card_id"));
                values.push(id.to_string());
            },
            Particulars::ColumnId(id) => {
                names.push(String::from_str("column_id"));
                values.push(id.to_string());
            },
        }
        assert(texts(names@) =~= self@.names());
        assert(texts(values@) =~= self@.values());
        json_object(&names, &values)
    }
}

} // verus!
