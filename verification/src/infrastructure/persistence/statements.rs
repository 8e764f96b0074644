//! The statements that write to the relational store, each with the values
//! for its placeholders.

use vstd::prelude::*;
use vstd::string::*;
use crate::domain::ports::event_repository::{
    json_object_text, CreateEventInput, CreateEventInputView,
};
use crate::domain::value_objects::fizzy_id::FizzyId;
use crate::infrastructure::persistence::card_query::{bind_views, BindValue, BindValueView};
use crate::text::{count_char, lemma_count_absent, lemma_count_concat};

verus! {

/// A statement with the values for its placeholders, in the order in
/// which the placeholders stand in the text.
#[derive(Debug)]
pub struct Statement {
    pub sql: String,
    pub bindings: Vec<BindValue>,
}

/// What a statement holds, as plain values.
pub struct StatementView {
    pub sql: Seq<char>,
    pub bindings: Seq<BindValueView>,
}

impl View for Statement {
    type V = StatementView;

    open spec fn view(&self) -> StatementView {
        StatementView { sql: self.sql@, bindings: bind_views(self.bindings@) }
    }
}

impl StatementView {
    /// Whether there is one value for each placeholder.
    pub open spec fn balanced(self) -> bool {
        count_char(self.sql, '?') == self.bindings.len()
    }
}

/// The text that inserts a comment.
pub open spec fn insert_comment_text() -> Seq<char> {
    "INSERT INTO comments (id, account_id, card_id, creator_id, created_at, updated_at) VALUES (?, ?, ?, ?, datetime('now'), datetime('now'))"@
}

/// The text that inserts the content of a comment.
pub open spec fn insert_content_text() -> Seq<char> {
    "INSERT INTO action_text_rich_texts (id, account_id, record_type, record_id, name, body, created_at, updated_at) VALUES (?, ?, 'Comment', ?, 'body', ?, datetime('now'), datetime('now'))"@
}

/// The text that marks a card as active and changed now.
pub open spec fn touch_card_text() -> Seq<char> {
    "UPDATE cards SET last_active_at = datetime('now'), updated_at = datetime('now') WHERE id = ? AND account_id = ?"@
}

/// The text that inserts an audit event.
pub open spec fn insert_event_text() -> Seq<char> {
    "INSERT INTO events (id, account_id, board_id, eventable_id, eventable_type, creator_id, action, particulars, created_at, updated_at) VALUES (?, ?, ?, ?, ?, ?, ?, ?, datetime('now'), datetime('now'))"@
}

/// The statement that inserts a comment.
pub open spec fn insert_comment(
    comment_id: Seq<char>,
    account_id: Seq<char>,
    card_id: Seq<char>,
    creator_id: Seq<char>,
) -> StatementView {
    StatementView {
        sql: insert_comment_text(),
        bindings: seq![
            BindValueView::Id(comment_id),
            BindValueView::Id(account_id),
            BindValueView::Id(card_id),
            BindValueView::Id(creator_id),
        ],
    }
}

/// The statement that inserts the content of a comment.
pub open spec fn insert_content(
    content_id: Seq<char>,
    account_id: Seq<char>,
    comment_id: Seq<char>,
    content: Seq<char>,
) -> StatementView {
    StatementView {
        sql: insert_content_text(),
        bindings: seq![
            BindValueView::Id(content_id),
            BindValueView::Id(account_id),
            BindValueView::Id(comment_id),
            BindValueView::Text(content),
        ],
    }
}

/// The statement that marks a card as active and changed now.
pub open spec fn touch_card(card_id: Seq<char>, account_id: Seq<char>) -> StatementView {
    StatementView {
        sql: touch_card_text(),
        bindings: seq![BindValueView::Id(card_id), BindValueView::Id(account_id)],
    }
}

/// The statement that inserts an audit event; its details are bound as the
/// text of a JSON object.
pub open spec fn insert_event(
    event_id: Seq<char>,
    account_id: Seq<char>,
    input: CreateEventInputView,
) -> StatementView {
    StatementView {
        sql: insert_event_text(),
        bindings: seq![
            BindValueView::Id(event_id),
            BindValueView::Id(account_id),
            BindValueView::Id(input.board_id),
            BindValueView::Id(input.eventable_id),
            BindValueView::Text(input.eventable_type),
            BindValueView::Id(input.creator_id),
            BindValueView::Text(input.action),
            BindValueView::Text(
                json_object_text(input.particulars.names(), input.particulars.values()),
            ),
        ],
    }
}

/// Four question marks with commas between hold four question marks.
proof fn lemma_marks(n: nat)
    ensures
        n == 4 ==> count_char("?, ?, ?, ?"@, '?') == 4,
        n == 3 ==> count_char("?, ?, "@, '?') == 2,
        n == 2 ==> count_char("?, "@, '?') == 1,
        n == 1 ==> count_char("?"@, '?') == 1,
        n == 8 ==> count_char("?, ?, ?, ?, ?, ?, ?, ?"@, '?') == 8,
{
    reveal_strlit("?");
    reveal_strlit("?, ");
    reveal_strlit("?, ?, ");
    reveal_strlit("?, ?, ?, ?");
    reveal_strlit("?, ?, ?, ?, ?, ?, ?, ?");
    reveal_strlit(", ");
    assert(count_char("?"@, '?') == 1) by {
        assert(count_char("?"@.drop_last(), '?') == 0);
    }
    lemma_count_absent(", "@, '?');
    assert("?, "@ =~= "?"@ + ", "@);
    lemma_count_concat("?"@, ", "@, '?');
    assert("?, ?, "@ =~= "?, "@ + "?, "@);
    lemma_count_concat("?, "@, "?, "@, '?');
    assert("?, ?, ?, ?"@ =~= "?, ?, "@ + "?, "@ + "?"@);
    lemma_count_concat("?, ?, "@, "?, "@, '?');
    lemma_count_concat("?, ?, "@ + "?, "@, "?"@, '?');
    assert("?, ?, ?, ?, ?, ?, ?, ?"@ =~= "?, ?, "@ + "?, ?, "@ + "?, ?, ?, ?"@);
    lemma_count_concat("?, ?, "@, "?, ?, "@, '?');
    lemma_count_concat("?, ?, "@ + "?, ?, "@, "?, ?, ?, ?"@, '?');
}

/// The statements of a comment write have one value for each placeholder.
pub proof fn lemma_comment_statements_balanced(
    comment_id: Seq<char>,
    content_id: Seq<char>,
    account_id: Seq<char>,
    card_id: Seq<char>,
    creator_id: Seq<char>,
    content: Seq<char>,
)
    ensures
        insert_comment(comment_id, account_id, card_id, creator_id).balanced(),
        insert_content(content_id, account_id, comment_id, content).balanced(),
        touch_card(card_id, account_id).balanced(),
{
    lemma_marks(4);
    lemma_marks(3);
    lemma_marks(2);
    lemma_marks(1);
    let a = "INSERT INTO comments (id, account_id, card_id, creator_id, created_at, updated_at) VALUES ("@;
    let b = ", datetime('now'), datetime('now'))"@;
    reveal_strlit(
        "INSERT INTO comments (id, account_id, card_id, creator_id, created_at, updated_at) VALUES (?, ?, ?, ?, datetime('now'), datetime('now'))",
    );
    reveal_strlit(
        "INSERT INTO comments (id, account_id, card_id, creator_id, created_at, updated_at) VALUES (",
    );
    reveal_strlit(", datetime('now'), datetime('now'))");
    reveal_strlit("?, ?, ?, ?");
    assert(insert_comment_text() =~= a + "?, ?, ?, ?"@ + b);
    lemma_count_absent(a, '?');
    lemma_count_absent(b, '?');
    lemma_count_concat(a, "?, ?, ?, ?"@, '?');
    lemma_count_concat(a + "?, ?, ?, ?"@, b, '?');

    let c = "INSERT INTO action_text_rich_texts (id, account_id, record_type, record_id, name, body, created_at, updated_at) VALUES ("@;
    let d = "'Comment', "@;
    let e = "'body', "@;
    reveal_strlit(
        "INSERT INTO action_text_rich_texts (id, account_id, record_type, record_id, name, body, created_at, updated_at) VALUES (?, ?, 'Comment', ?, 'body', ?, datetime('now'), datetime('now'))",
    );
    reveal_strlit(
        "INSERT INTO action_text_rich_texts (id, account_id, record_type, record_id, name, body, created_at, updated_at) VALUES (",
    );
    reveal_strlit("'Comment', ");
    reveal_strlit("'body', ");
    reveal_strlit("?, ?, ");
    reveal_strlit("?, ");
    reveal_strlit("?");
    assert(insert_content_text() =~= c + "?, ?, "@ + d + "?, "@ + e + "?"@ + b);
    lemma_count_absent(c, '?');
    lemma_count_absent(d, '?');
    lemma_count_absent(e, '?');
    lemma_count_concat(c, "?, ?, "@, '?');
    lemma_count_concat(c + "?, ?, "@, d, '?');
    lemma_count_concat(c + "?, ?, "@ + d, "?, "@, '?');
    lemma_count_concat(c + "?, ?, "@ + d + "?, "@, e, '?');
    lemma_count_concat(c + "?, ?, "@ + d + "?, "@ + e, "?"@, '?');
    lemma_count_concat(c + "?, ?, "@ + d + "?, "@ + e + "?"@, b, '?');

    let f = "UPDATE cards SET last_active_at = datetime('now'), updated_at = datetime('now') WHERE id = "@;
    let g = " AND account_id = "@;
    reveal_strlit(
        "UPDATE cards SET last_active_at = datetime('now'), updated_at = datetime('now') WHERE id = ? AND account_id = ?",
    );
    reveal_strlit(
        "UPDATE cards SET last_active_at = datetime('now'), updated_at = datetime('now') WHERE id = ",
    );
    reveal_strlit(" AND account_id = ");
    assert(touch_card_text() =~= f + "?"@ + g + "?"@);
    lemma_count_absent(f, '?');
    lemma_count_absent(g, '?');
    lemma_count_concat(f, "?"@, '?');
    lemma_count_concat(f + "?"@, g, '?');
    lemma_count_concat(f + "?"@ + g, "?"@, '?');
}

/// The statement of an audit event has one value for each placeholder.
pub proof fn lemma_event_statement_balanced(
    event_id: Seq<char>,
    account_id: Seq<char>,
    input: CreateEventInputView,
)
    ensures
        insert_event(event_id, account_id, input).balanced(),
{
    lemma_marks(8);
    let a = "INSERT INTO events (id, account_id, board_id, eventable_id, eventable_type, creator_id, action, particulars, created_at, updated_at) VALUES ("@;
    let b = ", datetime('now'), datetime('now'))"@;
    reveal_strlit(
        "INSERT INTO events (id, account_id, board_id, eventable_id, eventable_type, creator_id, action, particulars, created_at, updated_at) VALUES (?, ?, ?, ?, ?, ?, ?, ?, datetime('now'), datetime('now'))",
    );
    reveal_strlit(
        "INSERT INTO events (id, account_id, board_id, eventable_id, eventable_type, creator_id, action, particulars, created_at, updated_at) VALUES (",
    );
    reveal_strlit(", datetime('now'), datetime('now'))");
    reveal_strlit("?, ?, ?, ?, ?, ?, ?, ?");
    assert(insert_event_text() =~= a + "?, ?, ?, ?, ?, ?, ?, ?"@ + b);
    lemma_count_absent(a, '?');
    lemma_count_absent(b, '?');
    lemma_count_concat(a, "?, ?, ?, ?, ?, ?, ?, ?"@, '?');
    lemma_count_concat(a + "?, ?, ?, ?, ?, ?, ?, ?"@, b, '?');
}

/// The statement that inserts a comment.
pub fn insert_comment_statement(
    comment_id: &FizzyId,
    account_id: &FizzyId,
    card_id: &FizzyId,
    creator_id: &FizzyId,
) -> (r: Statement)
    ensures
        r@ == insert_comment(comment_id@, account_id@, card_id@, creator_id@),
{
    let mut bindings: Vec<BindValue> = Vec::new();
    bindings.push(BindValue::Id(comment_id.clone()));
    bindings.push(BindValue::Id(account_id.clone()));
    bindings.push(BindValue::Id(card_id.clone()));
    bindings.push(BindValue::Id(creator_id.clone()));
    let r = Statement {
        sql: String::from_str(
            "INSERT INTO comments (id, account_id, card_id, creator_id, created_at, updated_at) VALUES (?, ?, ?, ?, datetime('now'), datetime('now'))",
        ),
        bindings,
    };
    assert(r@.bindings =~= insert_comment(comment_id@, account_id@, card_id@, creator_id@).bindings);
    r
}

/// The statement that inserts the content of a comment.
pub fn insert_content_statement(
    content_id: &FizzyId,
    account_id: &FizzyId,
    comment_id: &FizzyId,
    content: &str,
) -> (r: Statement)
    ensures
        r@ == insert_content(content_id@, account_id@, comment_id@, content@),
{
    let mut bindings: Vec<BindValue> = Vec::new();
    bindings.push(BindValue::Id(content_id.clone()));
    bindings.push(BindValue::Id(account_id.clone()));
    bindings.push(BindValue::Id(comment_id.clone()));
    bindings.push(BindValue::Text(String::from_str(content)));
    let r = Statement {
        sql: String::from_str(
            "INSERT INTO action_text_rich_texts (id, account_id, record_type, record_id, name, body, created_at, updated_at) VALUES (?, ?, 'Comment', ?, 'body', ?, datetime('now'), datetime('now'))",
        ),
        bindings,
    };
    assert(r@.bindings =~= insert_content(content_id@, account_id@, comment_id@, content@).bindings);
    r
}

/// The statement that marks a card as active and changed now.
pub fn touch_card_statement(card_id: &FizzyId, account_id: &FizzyId) -> (r: Statement)
    ensures
        r@ == touch_card(card_id@, account_id@),
{
    let mut bindings: Vec<BindValue> = Vec::new();
    bindings.push(BindValue::Id(card_id.clone()));
    bindings.push(BindValue::Id(account_id.clone()));
    let r = Statement {
        sql: String::from_str(
            "UPDATE cards SET last_active_at = datetime('now'), updated_at = datetime('now') WHERE id = ? AND account_id = ?",
        ),
        bindings,
    };
    assert(r@.bindings =~= touch_card(card_id@, account_id@).bindings);
    r
}

/// The statement that inserts an audit event.
pub fn insert_event_statement(event_id: &FizzyId, account_id: &FizzyId, input: &CreateEventInput) -> (r:
    Statement)
    ensures
        r@ == insert_event(event_id@, account_id@, input@),
{
    let mut bindings: Vec<BindValue> = Vec::new();
    bindings.push(BindValue::Id(event_id.clone()));
    bindings.push(BindValue::Id(account_id.clone()));
    bindings.push(BindValue::Id(input.board_id.clone()));
    bindings.push(BindValue::Id(input.eventable_id.clone()));
    bindings.push(BindValue::Text(input.eventable_type.clone()));
    bindings.push(BindValue::Id(input.creator_id.clone()));
    bindings.push(BindValue::Text(input.action.clone()));
    bindings.push(BindValue::Text(input.particulars.to_json()));
    let r = Statement {
        sql: String::from_str(
            "INSERT INTO events (id, account_id, board_id, eventable_id, eventable_type, creator_id, action, particulars, created_at, updated_at) VALUES (?, ?, ?, ?, ?, ?, ?, ?, datetime('now'), datetime('now'))",
        ),
        bindings,
    };
    assert(r@.bindings =~= insert_event(event_id@, account_id@, input@).bindings);
    r
}

/// How many comments a listing returns where its caller names no limit.
pub const DEFAULT_COMMENT_LIMIT: i64 = 50;

/// The limit of a listing of comments: the caller's, or the default.
pub fn comment_limit(limit: Option<i64>) -> (r: i64)
    ensures
        r == match limit {
            Some(n) => n,
            None => DEFAULT_COMMENT_LIMIT,
        },
{
    match limit {
        Some(n) => n,
        None => DEFAULT_COMMENT_LIMIT,
    }
}

} // verus!
