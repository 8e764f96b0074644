//! The names of the actions that the audit trail records.

use vstd::prelude::*;

verus! {

pub const CARD_CREATED: &'static str = "card_created";

pub const CARD_UPDATED: &'static str = "card_updated";

pub const CARD_CLOSED: &'static str = "card_closed";

pub const CARD_REOPENED: &'static str = "card_reopened";

pub const CARD_COLUMN_CHANGED: &'static str = "card_column_changed";

pub const CARD_BOARD_CHANGED: &'static str = "card_board_changed";

pub const COMMENT_CREATED: &'static str = "comment_created";

} // verus!
