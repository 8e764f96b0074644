//! From a card filter to a query: one clause per filter field that is set,
//! each made together with the values bound to its placeholders, so that
//! the two cannot drift apart.

use vstd::prelude::*;
use vstd::string::*;
use crate::domain::ports::card_repository::{CardFacts, CardFilters, CardFiltersView};
use crate::domain::value_objects::card_status::CardStatus;
use crate::domain::value_objects::fizzy_id::FizzyId;
use crate::text::{
    count_char, decimal_text, lemma_count_absent, lemma_count_concat, lemma_decimal_chars,
    push_decimal,
};

verus! {

/// A value bound to one placeholder of a query.
#[derive(Debug)]
pub enum BindValue {
    /// An identifier, bound in its storage form.
    Id(FizzyId),
    /// A text, such as the stored name of a status.
    Text(String),
    /// A whole number, such as the number of a card.
    Integer(i64),
}

/// What a bound value holds, as plain values.
pub enum BindValueView {
    Id(Seq<char>),
    Text(Seq<char>),
    Integer(i64),
}

impl View for BindValue {
    type V = BindValueView;

    open spec fn view(&self) -> BindValueView {
        match self {
            BindValue::Id(id) => BindValueView::Id(id@),
            BindValue::Text(t) => BindValueView::Text(t@),
            BindValue::Integer(n) => BindValueView::Integer(*n),
        }
    }
}

/// One condition on a card, the unit that a query's predicate is made of.
#[derive(Debug)]
pub enum Clause {
    /// The card belongs to this account.
    Account(FizzyId),
    /// The card is assigned to this user.
    Assignee(FizzyId),
    /// The card is on this board.
    Board(FizzyId),
    /// The card is in this column.
    Column(FizzyId),
    /// The card's status is one of these.
    StatusIn(Vec<CardStatus>),
    /// The card's status is none of these.
    StatusNotIn(Vec<CardStatus>),
    /// The card is golden, or is not.
    Golden(bool),
}

/// What a clause holds, as plain values.
pub enum ClauseView {
    Account(Seq<char>),
    Assignee(Seq<char>),
    Board(Seq<char>),
    Column(Seq<char>),
    StatusIn(Seq<CardStatus>),
    StatusNotIn(Seq<CardStatus>),
    Golden(bool),
}

impl View for Clause {
    type V = ClauseView;

    open spec fn view(&self) -> ClauseView {
        match self {
            Clause::Account(id) => ClauseView::Account(id@),
            Clause::Assignee(id) => ClauseView::Assignee(id@),
            Clause::Board(id) => ClauseView::Board(id@),
            Clause::Column(id) => ClauseView::Column(id@),
            Clause::StatusIn(list) => ClauseView::StatusIn(list@),
            Clause::StatusNotIn(list) => ClauseView::StatusNotIn(list@),
            Clause::Golden(golden) => ClauseView::Golden(*golden),
        }
    }
}

/// `n` placeholders, separated by a comma and a blank.
pub open spec fn placeholder_list(n: nat) -> Seq<char>
    decreases n,
{
    if n == 0 {
        Seq::empty()
    } else if n == 1 {
        "?"@
    } else {
        placeholder_list((n - 1) as nat) + ", ?"@
    }
}

/// The stored names of some statuses, each as a bound text.
pub open spec fn status_bindings(list: Seq<CardStatus>) -> Seq<BindValueView> {
    Seq::new(list.len(), |i: int| BindValueView::Text(list[i].storage_name()))
}

impl ClauseView {
    /// The text of the clause in a query, with `?` for each bound value.
    pub open spec fn fragment(self) -> Seq<char> {
        match self {
            ClauseView::Account(_) => "c.account_id = ?"@,
            ClauseView::Assignee(_) =>
                "EXISTS (SELECT 1 FROM assignments a WHERE a.card_id = c.id AND a.assignee_id = ?)"@,
            ClauseView::Board(_) => "c.board_id = ?"@,
            ClauseView::Column(_) => "c.column_id = ?"@,
            ClauseView::StatusIn(list) => "c.status IN ("@ + placeholder_list(list.len()) + ")"@,
            ClauseView::StatusNotIn(list) => "c.status NOT IN ("@ + placeholder_list(list.len())
                + ")"@,
            ClauseView::Golden(golden) => if golden {
                "cg.id IS NOT NULL"@
            } else {
                "cg.id IS NULL"@
            },
        }
    }

    /// The values bound to the placeholders of the clause, in their order.
    pub open spec fn bound(self) -> Seq<BindValueView> {
        match self {
            ClauseView::Account(id) => seq![BindValueView::Id(id)],
            ClauseView::Assignee(id) => seq![BindValueView::Id(id)],
            ClauseView::Board(id) => seq![BindValueView::Id(id)],
            ClauseView::Column(id) => seq![BindValueView::Id(id)],
            ClauseView::StatusIn(list) => status_bindings(list),
            ClauseView::StatusNotIn(list) => status_bindings(list),
            ClauseView::Golden(_) => Seq::empty(),
        }
    }

    /// Whether the clause is true of a card.
    pub open spec fn holds(self, card: CardFacts) -> bool {
        match self {
            ClauseView::Account(id) => card.account_id == id,
            ClauseView::Assignee(id) => card.assignee_ids.contains(id),
            ClauseView::Board(id) => card.board_id == id,
            ClauseView::Column(id) => card.column_id == Some(id),
            ClauseView::StatusIn(list) => list.contains(card.status),
            ClauseView::StatusNotIn(list) => !list.contains(card.status),
            ClauseView::Golden(golden) => card.is_golden == golden,
        }
    }
}

/// The views of a list of clauses.
pub open spec fn clause_views(clauses: Seq<Clause>) -> Seq<ClauseView> {
    Seq::new(clauses.len(), |i: int| clauses[i]@)
}

/// The views of a list of bound values.
pub open spec fn bind_views(values: Seq<BindValue>) -> Seq<BindValueView> {
    Seq::new(values.len(), |i: int| values[i]@)
}

/// The clauses of a filter within an account: the account's own clause
/// first, then one for each field that is set, in a fixed order. A status
/// list that is empty makes no clause.
pub open spec fn compiled(account_id: Seq<char>, filters: CardFiltersView) -> Seq<ClauseView> {
    seq![ClauseView::Account(account_id)] + (match filters.assignee_id {
        Some(id) => seq![ClauseView::Assignee(id)],
        None => Seq::empty(),
    }) + (match filters.board_id {
        Some(id) => seq![ClauseView::Board(id)],
        None => Seq::empty(),
    }) + (match filters.column_id {
        Some(id) => seq![ClauseView::Column(id)],
        None => Seq::empty(),
    }) + (match filters.status {
        Some(list) => if list.len() > 0 {
            seq![ClauseView::StatusIn(list)]
        } else {
            Seq::empty()
        },
        None => Seq::empty(),
    }) + (match filters.exclude_status {
        Some(list) => if list.len() > 0 {
            seq![ClauseView::StatusNotIn(list)]
        } else {
            Seq::empty()
        },
        None => Seq::empty(),
    }) + (match filters.is_golden {
        Some(golden) => seq![ClauseView::Golden(golden)],
        None => Seq::empty(),
    })
}

/// Whether every clause is true of a card.
pub open spec fn all_hold(clauses: Seq<ClauseView>, card: CardFacts) -> bool {
    forall|i: int| 0 <= i < clauses.len() ==> (#[trigger] clauses[i]).holds(card)
}

/// The predicate of a query: the clauses' texts joined by `AND`.
pub open spec fn where_text(clauses: Seq<ClauseView>) -> Seq<char>
    decreases clauses.len(),
{
    if clauses.len() == 0 {
        Seq::empty()
    } else if clauses.len() == 1 {
        clauses[0].fragment()
    } else {
        where_text(clauses.drop_last()) + " AND "@ + clauses.last().fragment()
    }
}

/// The values bound to a query: those of its clauses, one clause after
/// the other.
pub open spec fn all_bound(clauses: Seq<ClauseView>) -> Seq<BindValueView>
    decreases clauses.len(),
{
    if clauses.len() == 0 {
        Seq::empty()
    } else {
        all_bound(clauses.drop_last()) + clauses.last().bound()
    }
}

/// The part of a query that selects the columns of a card and joins the
/// tables they come from.
pub open spec fn base_text() -> Seq<char> {
    "
        SELECT
            c.id,
            c.account_id,
            c.board_id,
            c.column_id,
            c.creator_id,
            c.number,
            c.title,
            c.status,
            c.due_on,
            c.last_active_at,
            c.created_at,
            c.updated_at,
            b.name as board_name,
            col.name as column_name,
            col.color as column_color,
            u.name as creator_name,
            CASE WHEN cg.id IS NOT NULL THEN true ELSE false END as is_golden
        FROM cards c
        JOIN boards b ON c.board_id = b.id
        LEFT JOIN columns col ON c.column_id = col.id
        JOIN users u ON c.creator_id = u.id
        LEFT JOIN card_goldnesses cg ON c.id = cg.card_id
        "@
}

/// The end of a query: the fixed order, most recently active first, then
/// the limit and the offset where they are given.
pub open spec fn tail_text(limit: Option<i64>, offset: Option<i64>) -> Seq<char> {
    " ORDER BY c.last_active_at DESC"@ + (match limit {
        Some(n) => " LIMIT "@ + decimal_text(n as int),
        None => Seq::empty(),
    }) + (match offset {
        Some(n) => " OFFSET "@ + decimal_text(n as int),
        None => Seq::empty(),
    })
}

/// The whole text of the query for some clauses.
pub open spec fn query_text(clauses: Seq<ClauseView>, limit: Option<i64>, offset: Option<i64>) -> Seq<
    char,
> {
    base_text() + " WHERE "@ + where_text(clauses) + tail_text(limit, offset)
}

/// A query with the values for its placeholders, in the order in which
/// the placeholders stand in the text.
#[derive(Debug)]
pub struct CardQuery {
    pub sql: String,
    pub bindings: Vec<BindValue>,
}

/// The part of a query that selects the columns of a card and joins the
/// tables they come from.
pub fn base_card_query() -> (r: &'static str)
    ensures
        r@ == base_text(),
{
    "
        SELECT
            c.id,
            c.account_id,
            c.board_id,
            c.column_id,
            c.creator_id,
            c.number,
            c.title,
            c.status,
            c.due_on,
            c.last_active_at,
            c.created_at,
            c.updated_at,
            b.name as board_name,
            col.name as column_name,
            col.color as column_color,
            u.name as creator_name,
            CASE WHEN cg.id IS NOT NULL THEN true ELSE false END as is_golden
        FROM cards c
        JOIN boards b ON c.board_id = b.id
        LEFT JOIN columns col ON c.column_id = col.id
        JOIN users u ON c.creator_id = u.id
        LEFT JOIN card_goldnesses cg ON c.id = cg.card_id
        "
}

/// Puts `n` placeholders behind `out`.
fn push_placeholders(out: &mut String, n: usize)
    ensures
        final(out)@ == old(out)@ + placeholder_list(n as nat),
{
    let mut i: usize = 0;
    while i < n
        invariant
            i <= n,
            out@ == old(out)@ + placeholder_list(i as nat),
        decreases n - i,
    {
        if i == 0 {
            out.append("?");
        } else {
            out.append(", ?");
        }
        i += 1;
        assert(out@ =~= old(out)@ + placeholder_list(i as nat));
    }
}

/// The stored names of some statuses, each as a value to bind.
fn status_values(list: &Vec<CardStatus>) -> (r: Vec<BindValue>)
    ensures
        bind_views(r@) == status_bindings(list@),
{
    let mut out: Vec<BindValue> = Vec::new();
    let mut i: usize = 0;
    while i < list.len()
        invariant
            i <= list.len(),
            out.len() == i,
            forall|j: int| 0 <= j < i ==> out@[j]@ == BindValueView::Text(list@[j].storage_name()),
        decreases list.len() - i,
    {
        out.push(BindValue::Text(String::from_str(list[i].as_str())));
        i += 1;
    }
    assert(bind_views(out@) =~= status_bindings(list@));
    out
}

impl Clause {
    /// The text of the clause in a query, with `?` for each bound value.
    pub fn fragment(&self) -> (r: String)
        ensures
            r@ == self@.fragment(),
    {
        match self {
            Clause::Account(_) => String::from_str("c.account_id = ?"),
            Clause::Assignee(_) => String::from_str(
                "EXISTS (SELECT 1 FROM assignments a WHERE a.card_id = c.id AND a.assignee_id = ?)",
            ),
            Clause::Board(_) => String::from_str("c.board_id = ?"),
            Clause::Column(_) => String::from_str("c.column_id = ?"),
            Clause::StatusIn(list) => {
                let mut out = String::from_str("c.status IN (");
                push_placeholders(&mut out, list.len());
                out.append(")");
                out
            },
            Clause::StatusNotIn(list) => {
                let mut out = String::from_str("c.status NOT IN (");
                push_placeholders(&mut out, list.len());
                out.append(")");
                out
            },
            Clause::Golden(golden) => if *golden {
                String::from_str("cg.id IS NOT NULL")
            } else {
                String::from_str("cg.id IS NULL")
            },
        }
    }

    /// The values bound to the placeholders of the clause, in their order.
    pub fn bound_values(&self) -> (r: Vec<BindValue>)
        ensures
            bind_views(r@) == self@.bound(),
    {
        match self {
            Clause::Account(id) | Clause::Assignee(id) | Clause::Board(id) | Clause::Column(id) => {
                let mut out: Vec<BindValue> = Vec::new();
                out.push(BindValue::Id(id.clone()));
                assert(bind_views(out@) =~= self@.bound());
                out
            },
            Clause::StatusIn(list) => status_values(list),
            Clause::StatusNotIn(list) => status_values(list),
            Clause::Golden(_) => {
                let out: Vec<BindValue> = Vec::new();
                assert(bind_views(out@) =~= self@.bound());
                out
            },
        }
    }
}

/// A copy of a list of statuses.
fn copy_statuses(list: &Vec<CardStatus>) -> (r: Vec<CardStatus>)
    ensures
        r@ == list@,
{
    let mut out: Vec<CardStatus> = Vec::new();
    let mut i: usize = 0;
    while i < list.len()
        invariant
            i <= list.len(),
            out@ == list@.take(i as int),
        decreases list.len() - i,
    {
        out.push(list[i]);
        assert(list@.take(i as int).push(list@[i as int]) =~= list@.take(i + 1));
        i += 1;
    }
    assert(list@.take(list.len() as int) =~= list@);
    out
}

/// The clauses of a filter within an account.
pub fn filter_clauses(account_id: &FizzyId, filters: &CardFilters) -> (r: Vec<Clause>)
    ensures
        clause_views(r@) == compiled(account_id@, filters@),
{
    let mut out: Vec<Clause> = Vec::new();
    out.push(Clause::Account(account_id.clone()));
    let ghost c0 = seq![ClauseView::Account(account_id@)];
    assert(clause_views(out@) =~= c0);
    if let Some(id) = &filters.assignee_id {
        out.push(Clause::Assignee(id.clone()));
    }
    let ghost c1 = c0 + (match filters@.assignee_id {
        Some(id) => seq![ClauseView::Assignee(id)],
        None => Seq::empty(),
    });
    assert(clause_views(out@) =~= c1);
    if let Some(id) = &filters.board_id {
        out.push(Clause::Board(id.clone()));
    }
    let ghost c2 = c1 + (match filters@.board_id {
        Some(id) => seq![ClauseView::Board(id)],
        None => Seq::empty(),
    });
    assert(clause_views(out@) =~= c2);
    if let Some(id) = &filters.column_id {
        out.push(Clause::Column(id.clone()));
    }
    let ghost c3 = c2 + (match filters@.column_id {
        Some(id) => seq![ClauseView::Column(id)],
        None => Seq::empty(),
    });
    assert(clause_views(out@) =~= c3);
    if let Some(list) = &filters.status {
        if list.len() > 0 {
            out.push(Clause::StatusIn(copy_statuses(list)));
        }
    }
    let ghost c4 = c3 + (match filters@.status {
        Some(list) => if list.len() > 0 {
            seq![ClauseView::StatusIn(list)]
        } else {
            Seq::empty()
        },
        None => Seq::empty(),
    });
    assert(clause_views(out@) =~= c4);
    if let Some(list) = &filters.exclude_status {
        if list.len() > 0 {
            out.push(Clause::StatusNotIn(copy_statuses(list)));
        }
    }
    let ghost c5 = c4 + (match filters@.exclude_status {
        Some(list) => if list.len() > 0 {
            seq![ClauseView::StatusNotIn(list)]
        } else {
            Seq::empty()
        },
        None => Seq::empty(),
    });
    assert(clause_views(out@) =~= c5);
    if let Some(golden) = filters.is_golden {
        out.push(Clause::Golden(golden));
    }
    assert(clause_views(out@) =~= compiled(account_id@, filters@));
    out
}

/// The query of some clauses: its text, and the bound values in the order
/// of the placeholders.
pub fn render_query(clauses: &Vec<Clause>, limit: Option<i64>, offset: Option<i64>) -> (q: CardQuery)
    ensures
        q.sql@ == query_text(clause_views(clauses@), limit, offset),
        bind_views(q.bindings@) == all_bound(clause_views(clauses@)),
{
    let ghost views = clause_views(clauses@);
    let mut sql = String::from_str(base_card_query());
    sql.append(" WHERE ");
    let mut bindings: Vec<BindValue> = Vec::new();
    let mut i: usize = 0;
    assert(bind_views(bindings@) =~= all_bound(views.take(0)));
    assert(sql@ =~= base_text() + " WHERE "@ + where_text(views.take(0)));
    while i < clauses.len()
        invariant
            i <= clauses.len(),
            views == clause_views(clauses@),
            sql@ == base_text() + " WHERE "@ + where_text(views.take(i as int)),
            bind_views(bindings@) == all_bound(views.take(i as int)),
        decreases clauses.len() - i,
    {
        let ghost before = bindings@;
        if i > 0 {
            sql.append(" AND ");
        }
        let fragment = clauses[i].fragment();
        sql.append(fragment.as_str());
        let mut values = clauses[i].bound_values();
        let ghost added = values@;
        bindings.append(&mut values);
        proof {
            let next = views.take(i + 1);
            assert(next.drop_last() =~= views.take(i as int));
            assert(next.last() == clauses@[i as int]@);
            assert(sql@ =~= base_text() + " WHERE "@ + where_text(next));
            assert(bind_views(before + added) =~= bind_views(before) + bind_views(added));
        }
        i += 1;
    }
    assert(views.take(i as int) =~= views);
    sql.append(" ORDER BY c.last_active_at DESC");
    if let Some(n) = limit {
        sql.append(" LIMIT ");
        push_decimal(&mut sql, n);
    }
    if let Some(n) = offset {
        sql.append(" OFFSET ");
        push_decimal(&mut sql, n);
    }
    assert(sql@ =~= query_text(views, limit, offset));
    CardQuery { sql, bindings }
}

/// A list of `n` placeholders holds `n` question marks.
pub proof fn lemma_placeholder_list_count(n: nat)
    ensures
        count_char(placeholder_list(n), '?') == n,
    decreases n,
{
    reveal_strlit("?");
    reveal_strlit(", ?");
    reveal_strlit(", ");
    assert(count_char("?"@, '?') == 1) by {
        assert(count_char("?"@.drop_last(), '?') == 0);
    }
    if n > 1 {
        lemma_placeholder_list_count((n - 1) as nat);
        lemma_count_concat(placeholder_list((n - 1) as nat), ", ?"@, '?');
        assert(", ?"@ =~= ", "@ + "?"@);
        lemma_count_concat(", "@, "?"@, '?');
        lemma_count_absent(", "@, '?');
    }
}

/// Each clause has as many placeholders in its text as values bound to it.
pub proof fn lemma_clause_placeholders(clause: ClauseView)
    ensures
        count_char(clause.fragment(), '?') == clause.bound().len(),
{
    match clause {
        ClauseView::Account(_) => {
            reveal_strlit("c.account_id = ?");
            reveal_strlit("c.account_id = ");
            reveal_strlit("?");
            assert("c.account_id = ?"@ =~= "c.account_id = "@ + "?"@);
            lemma_count_concat("c.account_id = "@, "?"@, '?');
            lemma_count_absent("c.account_id = "@, '?');
            lemma_placeholder_list_count(1);
        },
        ClauseView::Assignee(_) => {
            reveal_strlit(
                "EXISTS (SELECT 1 FROM assignments a WHERE a.card_id = c.id AND a.assignee_id = ?)",
            );
            reveal_strlit(
                "EXISTS (SELECT 1 FROM assignments a WHERE a.card_id = c.id AND a.assignee_id = ",
            );
            reveal_strlit("?");
            reveal_strlit(")");
            let head =
                "EXISTS (SELECT 1 FROM assignments a WHERE a.card_id = c.id AND a.assignee_id = "@;
            assert(clause.fragment() =~= head + "?"@ + ")"@);
            lemma_count_concat(head + "?"@, ")"@, '?');
            lemma_count_concat(head, "?"@, '?');
            lemma_count_absent(head, '?');
            lemma_count_absent(")"@, '?');
            lemma_placeholder_list_count(1);
        },
        ClauseView::Board(_) => {
            reveal_strlit("c.board_id = ?");
            reveal_strlit("c.board_id = ");
            reveal_strlit("?");
            assert("c.board_id = ?"@ =~= "c.board_id = "@ + "?"@);
            lemma_count_concat("c.board_id = "@, "?"@, '?');
            lemma_count_absent("c.board_id = "@, '?');
            lemma_placeholder_list_count(1);
        },
        ClauseView::Column(_) => {
            reveal_strlit("c.column_id = ?");
            reveal_strlit("c.column_id = ");
            reveal_strlit("?");
            assert("c.column_id = ?"@ =~= "c.column_id = "@ + "?"@);
            lemma_count_concat("c.column_id = "@, "?"@, '?');
            lemma_count_absent("c.column_id = "@, '?');
            lemma_placeholder_list_count(1);
        },
        ClauseView::StatusIn(list) => {
            reveal_strlit("c.status IN (");
            reveal_strlit(")");
            let marks = placeholder_list(list.len());
            lemma_count_concat("c.status IN ("@ + marks, ")"@, '?');
            lemma_count_concat("c.status IN ("@, marks, '?');
            lemma_count_absent("c.status IN ("@, '?');
            lemma_count_absent(")"@, '?');
            lemma_placeholder_list_count(list.len());
        },
        ClauseView::StatusNotIn(list) => {
            reveal_strlit("c.status NOT IN (");
            reveal_strlit(")");
            let marks = placeholder_list(list.len());
            lemma_count_concat("c.status NOT IN ("@ + marks, ")"@, '?');
            lemma_count_concat("c.status NOT IN ("@, marks, '?');
            lemma_count_absent("c.status NOT IN ("@, '?');
            lemma_count_absent(")"@, '?');
            lemma_placeholder_list_count(list.len());
        },
        ClauseView::Golden(golden) => {
            reveal_strlit("cg.id IS NOT NULL");
            reveal_strlit("cg.id IS NULL");
            lemma_count_absent("cg.id IS NOT NULL"@, '?');
            lemma_count_absent("cg.id IS NULL"@, '?');
        },
    }
}

/// A predicate has as many placeholders as values bound to it.
pub proof fn lemma_where_placeholders(clauses: Seq<ClauseView>)
    ensures
        count_char(where_text(clauses), '?') == all_bound(clauses).len(),
    decreases clauses.len(),
{
    if clauses.len() == 1 {
        lemma_clause_placeholders(clauses[0]);
        assert(all_bound(clauses.drop_last()).len() == 0);
        assert(clauses.last() == clauses[0]);
    } else if clauses.len() > 1 {
        let init = clauses.drop_last();
        lemma_where_placeholders(init);
        lemma_clause_placeholders(clauses.last());
        reveal_strlit(" AND ");
        lemma_count_absent(" AND "@, '?');
        lemma_count_concat(where_text(init), " AND "@, '?');
        lemma_count_concat(where_text(init) + " AND "@, clauses.last().fragment(), '?');
    }
}

/// The placeholders of the first `k` clauses stand before all others, and
/// the values bound to those clauses stand before all others: the `i`-th
/// question mark of a predicate belongs to the clause of the `i`-th value.
pub proof fn lemma_placeholders_in_order(clauses: Seq<ClauseView>, k: int)
    requires
        0 <= k <= clauses.len(),
    ensures
        where_text(clauses.take(k)).is_prefix_of(where_text(clauses)),
        all_bound(clauses.take(k)).is_prefix_of(all_bound(clauses)),
        count_char(where_text(clauses.take(k)), '?') == all_bound(clauses.take(k)).len(),
    decreases clauses.len() - k,
{
    lemma_where_placeholders(clauses.take(k));
    if k == clauses.len() {
        assert(clauses.take(k) =~= clauses);
    } else {
        lemma_placeholders_in_order(clauses, k + 1);
        let next = clauses.take(k + 1);
        assert(next.drop_last() =~= clauses.take(k));
        assert(where_text(clauses.take(k)).is_prefix_of(where_text(next))) by {
            if k == 0 {
                assert(where_text(clauses.take(k)).len() == 0);
            }
        }
        assert(all_bound(clauses.take(k)).is_prefix_of(all_bound(next)));
    }
}

/// A query has as many placeholders as values bound to it.
pub proof fn lemma_query_placeholders(
    clauses: Seq<ClauseView>,
    limit: Option<i64>,
    offset: Option<i64>,
)
    ensures
        count_char(query_text(clauses, limit, offset), '?') == all_bound(clauses).len(),
{
    lemma_where_placeholders(clauses);
    lemma_base_has_no_placeholder();
    lemma_tail_has_no_placeholder(limit, offset);
    reveal_strlit(" WHERE ");
    lemma_count_absent(" WHERE "@, '?');
    lemma_count_concat(base_text(), " WHERE "@, '?');
    lemma_count_concat(base_text() + " WHERE "@, where_text(clauses), '?');
    lemma_count_concat(
        base_text() + " WHERE "@ + where_text(clauses),
        tail_text(limit, offset),
        '?',
    );
}

/// The end of a query holds no placeholder.
pub proof fn lemma_tail_has_no_placeholder(limit: Option<i64>, offset: Option<i64>)
    ensures
        count_char(tail_text(limit, offset), '?') == 0,
{
    reveal_strlit(" ORDER BY c.last_active_at DESC");
    reveal_strlit(" LIMIT ");
    reveal_strlit(" OFFSET ");
    let order = " ORDER BY c.last_active_at DESC"@;
    let lim = match limit {
        Some(n) => " LIMIT "@ + decimal_text(n as int),
        None => Seq::empty(),
    };
    let off = match offset {
        Some(n) => " OFFSET "@ + decimal_text(n as int),
        None => Seq::empty(),
    };
    lemma_count_absent(order, '?');
    lemma_count_absent(" LIMIT "@, '?');
    lemma_count_absent(" OFFSET "@, '?');
    if let Some(n) = limit {
        lemma_decimal_chars(n as int, '?');
        lemma_count_concat(" LIMIT "@, decimal_text(n as int), '?');
    }
    if let Some(n) = offset {
        lemma_decimal_chars(n as int, '?');
        lemma_count_concat(" OFFSET "@, decimal_text(n as int), '?');
    }
    lemma_count_concat(order, lim, '?');
    lemma_count_concat(order + lim, off, '?');
}

/// Whoever passes the clauses of a filter passes the filter and belongs to
/// the account, and the other way round: the query's predicate and the
/// filter read directly select the same cards.
pub proof fn lemma_compiled_matches(account_id: Seq<char>, filters: CardFiltersView, card: CardFacts)
    ensures
        all_hold(compiled(account_id, filters), card) <==> card.account_id == account_id
            && filters.matches(card),
{
    let of_account = seq![ClauseView::Account(account_id)];
    let of_assignee: Seq<ClauseView> = match filters.assignee_id {
        Some(id) => seq![ClauseView::Assignee(id)],
        None => Seq::empty(),
    };
    let of_board: Seq<ClauseView> = match filters.board_id {
        Some(id) => seq![ClauseView::Board(id)],
        None => Seq::empty(),
    };
    let of_column: Seq<ClauseView> = match filters.column_id {
        Some(id) => seq![ClauseView::Column(id)],
        None => Seq::empty(),
    };
    let of_allowed: Seq<ClauseView> = match filters.status {
        Some(list) => if list.len() > 0 {
            seq![ClauseView::StatusIn(list)]
        } else {
            Seq::empty()
        },
        None => Seq::empty(),
    };
    let of_denied: Seq<ClauseView> = match filters.exclude_status {
        Some(list) => if list.len() > 0 {
            seq![ClauseView::StatusNotIn(list)]
        } else {
            Seq::empty()
        },
        None => Seq::empty(),
    };
    let of_golden: Seq<ClauseView> = match filters.is_golden {
        Some(golden) => seq![ClauseView::Golden(golden)],
        None => Seq::empty(),
    };
    lemma_all_hold_concat(of_account, of_assignee, card);
    lemma_all_hold_concat(of_account + of_assignee, of_board, card);
    lemma_all_hold_concat(of_account + of_assignee + of_board, of_column, card);
    lemma_all_hold_concat(of_account + of_assignee + of_board + of_column, of_allowed, card);
    lemma_all_hold_concat(of_account + of_assignee + of_board + of_column + of_allowed, of_denied, card);
    lemma_all_hold_concat(of_account + of_assignee + of_board + of_column + of_allowed + of_denied, of_golden, card);
    assert(all_hold(of_account, card) <==> card.account_id == account_id) by {
        assert(of_account[0].holds(card) <==> card.account_id == account_id);
    }
    lemma_all_hold_single(of_assignee, card);
    lemma_all_hold_single(of_board, card);
    lemma_all_hold_single(of_column, card);
    lemma_all_hold_single(of_allowed, card);
    lemma_all_hold_single(of_denied, card);
    lemma_all_hold_single(of_golden, card);
}

/// Clauses put together hold where both parts hold.
pub proof fn lemma_all_hold_concat(a: Seq<ClauseView>, b: Seq<ClauseView>, card: CardFacts)
    ensures
        all_hold(a + b, card) <==> all_hold(a, card) && all_hold(b, card),
{
    if all_hold(a + b, card) {
        assert forall|i: int| 0 <= i < a.len() implies (#[trigger] a[i]).holds(card) by {
            assert(a[i] == (a + b)[i]);
        }
        assert forall|i: int| 0 <= i < b.len() implies (#[trigger] b[i]).holds(card) by {
            assert(b[i] == (a + b)[i + a.len()]);
        }
    }
}

/// No clause holds of every card; a single clause holds where it holds.
pub proof fn lemma_all_hold_single(a: Seq<ClauseView>, card: CardFacts)
    requires
        a.len() <= 1,
    ensures
        a.len() == 0 ==> all_hold(a, card),
        a.len() == 1 ==> (all_hold(a, card) <==> a[0].holds(card)),
{
}

/// The part of a query before its predicate holds no placeholder.
pub proof fn lemma_base_has_no_placeholder()
    ensures
        count_char(base_text(), '?') == 0,
{
    reveal_strlit(
        "
        SELECT
            c.id,
            c.account_id,
            c.board_id,
            c.column_id,
            c.creator_id,
            c.number,
            c.title,
            c.status,
            c.due_on,
            c.last_active_at,
            c.created_at,
            c.updated_at,
            b.name as board_name,
            col.name as column_name,
            col.color as column_color,
            u.name as creator_name,
            CASE WHEN cg.id IS NOT NULL THEN true ELSE false END as is_golden
        FROM cards c
        JOIN boards b ON c.board_id = b.id
        LEFT JOIN columns col ON c.column_id = col.id
        JOIN users u ON c.creator_id = u.id
        LEFT JOIN card_goldnesses cg ON c.id = cg.card_id
        ",
    );
    lemma_count_absent(base_text(), '?');
}

/// The query that lists the cards of an account under a filter.
///
/// The text is made of the filter's clauses in their order, and the bound
/// values are those of the same clauses in the same order, so there is one
/// value for each placeholder.
pub fn build_list_query(account_id: &FizzyId, filters: &CardFilters) -> (q: CardQuery)
    ensures
        q.sql@ == query_text(compiled(account_id@, filters@), filters.limit, filters.offset),
        bind_views(q.bindings@) == all_bound(compiled(account_id@, filters@)),
        count_char(q.sql@, '?') == q.bindings@.len(),
{
    let clauses = filter_clauses(account_id, filters);
    proof {
        lemma_query_placeholders(compiled(account_id@, filters@), filters.limit, filters.offset);
    }
    render_query(&clauses, filters.limit, filters.offset)
}

/// The text of the query for the card of an account with a number.
pub open spec fn by_number_text() -> Seq<char> {
    base_text() + " WHERE c.account_id = ? AND c.number = ?"@
}

/// The text of the query for the card of an account with an identifier.
pub open spec fn by_id_text() -> Seq<char> {
    base_text() + " WHERE c.account_id = ? AND c.id = ?"@
}

/// The query for the card of an account with a number.
pub fn build_find_by_number_query(account_id: &FizzyId, number: i64) -> (q: CardQuery)
    ensures
        q.sql@ == by_number_text(),
        bind_views(q.bindings@) == seq![
            BindValueView::Id(account_id@),
            BindValueView::Integer(number),
        ],
        count_char(q.sql@, '?') == q.bindings@.len(),
{
    let mut sql = String::from_str(base_card_query());
    sql.append(" WHERE c.account_id = ? AND c.number = ?");
    let mut bindings: Vec<BindValue> = Vec::new();
    bindings.push(BindValue::Id(account_id.clone()));
    bindings.push(BindValue::Integer(number));
    assert(bind_views(bindings@) =~= seq![
        BindValueView::Id(account_id@),
        BindValueView::Integer(number),
    ]);
    proof {
        lemma_point_queries_balanced();
    }
    CardQuery { sql, bindings }
}

/// The query for the card of an account with an identifier.
pub fn build_find_by_id_query(account_id: &FizzyId, id: &FizzyId) -> (q: CardQuery)
    ensures
        q.sql@ == by_id_text(),
        bind_views(q.bindings@) == seq![BindValueView::Id(account_id@), BindValueView::Id(id@)],
        count_char(q.sql@, '?') == q.bindings@.len(),
{
    let mut sql = String::from_str(base_card_query());
    sql.append(" WHERE c.account_id = ? AND c.id = ?");
    let mut bindings: Vec<BindValue> = Vec::new();
    bindings.push(BindValue::Id(account_id.clone()));
    bindings.push(BindValue::Id(id.clone()));
    assert(bind_views(bindings@) =~= seq![BindValueView::Id(account_id@), BindValueView::Id(id@)]);
    proof {
        lemma_point_queries_balanced();
    }
    CardQuery { sql, bindings }
}

/// The queries for one card hold two placeholders each.
pub proof fn lemma_point_queries_balanced()
    ensures
        count_char(by_number_text(), '?') == 2,
        count_char(by_id_text(), '?') == 2,
{
    lemma_base_has_no_placeholder();
    reveal_strlit(" WHERE c.account_id = ? AND c.number = ?");
    reveal_strlit(" WHERE c.account_id = ? AND c.id = ?");
    reveal_strlit(" WHERE c.account_id = ");
    reveal_strlit(" AND c.number = ");
    reveal_strlit(" AND c.id = ");
    reveal_strlit("?");
    let w = " WHERE c.account_id = "@;
    let n = " AND c.number = "@;
    let i = " AND c.id = "@;
    assert(count_char("?"@, '?') == 1) by {
        assert(count_char("?"@.drop_last(), '?') == 0);
    }
    lemma_count_absent(w, '?');
    lemma_count_absent(n, '?');
    lemma_count_absent(i, '?');
    assert(" WHERE c.account_id = ? AND c.number = ?"@ =~= w + "?"@ + n + "?"@);
    assert(" WHERE c.account_id = ? AND c.id = ?"@ =~= w + "?"@ + i + "?"@);
    lemma_count_concat(w, "?"@, '?');
    lemma_count_concat(w + "?"@, n, '?');
    lemma_count_concat(w + "?"@ + n, "?"@, '?');
    lemma_count_concat(w + "?"@, i, '?');
    lemma_count_concat(w + "?"@ + i, "?"@, '?');
    lemma_count_concat(base_text(), w + "?"@ + n + "?"@, '?');
    lemma_count_concat(base_text(), w + "?"@ + i + "?"@, '?');
}

} // verus!
