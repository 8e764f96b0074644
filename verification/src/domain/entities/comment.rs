//! Comments on cards.

use vstd::prelude::*;
use crate::domain::value_objects::fizzy_id::FizzyId;
use crate::domain::value_objects::time::Timestamp;
use crate::text::{clone_opt_text, opt_text};
use crate::sorting::Ranked;

verus! {

/// A comment on a card, with its content.
#[derive(Debug)]
pub struct Comment {
    pub id: FizzyId,
    pub account_id: FizzyId,
    pub card_id: FizzyId,
    pub creator_id: FizzyId,
    pub content: String,
    pub created_at: Timestamp,
    pub updated_at: Timestamp,
    /// Name of the creator, where a read resolved it.
    pub creator_name: Option<String>,
}

/// What a comment holds, as plain values.
pub struct CommentView {
    pub id: Seq<char>,
    pub account_id: Seq<char>,
    pub card_id: Seq<char>,
    pub creator_id: Seq<char>,
    pub content: Seq<char>,
    pub created_at: Timestamp,
    pub updated_at: Timestamp,
    pub creator_name: Option<Seq<char>>,
}

impl View for Comment {
    type V = CommentView;

    open spec fn view(&self) -> CommentView {
        CommentView {
            id: self.id@,
            account_id: self.account_id@,
            card_id: self.card_id@,
            creator_id: self.creator_id@,
            content: self.content@,
            created_at: self.created_at,
            updated_at: self.updated_at,
            creator_name: opt_text(self.creator_name),
        }
    }
}

impl Clone for Comment {
    fn clone(&self) -> (r: Self)
        ensures
            r@ == self@,
    {
        Comment {
            id: self.id.clone(),
            account_id: self.account_id.clone(),
            card_id: self.card_id.clone(),
            creator_id: self.creator_id.clone(),
            content: self.content.clone(),
            created_at: self.created_at,
            updated_at: self.updated_at,
            creator_name: clone_opt_text(&self.creator_name),
        }
    }
}

/// Comments rank by their creation, the most recent first.
impl Ranked for Comment {
    open spec fn ranks_before(&self, other: &Self) -> bool {
        self.created_at.micros >= other.created_at.micros
    }

    fn is_ranked_before(&self, other: &Self) -> (r: bool) {
        self.created_at.micros >= other.created_at.micros
    }
}

/// The views of a list of comments.
pub open spec fn comment_views(comments: Seq<Comment>) -> Seq<CommentView> {
    comments.map_values(|c: Comment| c@)
}

} // verus!
