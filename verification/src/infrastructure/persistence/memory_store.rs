//! A store that keeps everything in memory: the fixture that the use cases
//! run against where no database is at hand.

use vstd::prelude::*;
use vstd::string::*;
use crate::domain::entities::board::{board_views, Board, BoardView};
use crate::domain::entities::card::{card_views, clone_opt_id, opt_id, Card, CardView};
use crate::domain::entities::column::{column_views, Column, ColumnView};
use crate::domain::entities::comment::{comment_views, Comment, CommentView};
use crate::domain::errors::{DomainError, DomainErrorView};
use crate::domain::ports::card_repository::{
    CardFilters, CardFiltersView, CreateCardInput, UpdateCardInput,
};
use crate::domain::ports::event_repository::CreateEventInput;
use crate::domain::value_objects::card_status::CardStatus;
use crate::domain::value_objects::fizzy_id::{is_id_text, FizzyId};
use crate::domain::value_objects::time::Timestamp;
use crate::infrastructure::persistence::memory_model::{
    by_activity, by_creation, by_name, by_position, highest_number, open_cards, AccessView, CardRecordView,
    card_missing, lemma_comment_written, store_failure, updated_card, CommentRowView, ContentRowView, EventRowView,
    Faults, StoreView, Written,
};
use crate::infrastructure::persistence::card_query::{
    all_hold, clause_views, compiled, filter_clauses, lemma_compiled_matches, Clause,
};
use crate::seqs::{
    cut_window, first_index, lemma_filter_step, lemma_first_index_is, lemma_first_index_none,
    lemma_window_map, window,
};
use crate::sorting::{lemma_ranked_map, rank_of, ranked, sort_ranked};
use crate::text::{ascii_lowered, eq_ignoring_ascii_case};

verus! {

/// A stored card with the users it is assigned to.
#[derive(Debug)]
pub struct CardRecord {
    pub card: Card,
    pub assignee_ids: Vec<FizzyId>,
}

/// The characters of each identifier of a list.
pub open spec fn id_texts(ids: Seq<FizzyId>) -> Seq<Seq<char>> {
    ids.map_values(|id: FizzyId| id@)
}

impl View for CardRecord {
    type V = CardRecordView;

    open spec fn view(&self) -> CardRecordView {
        CardRecordView { card: self.card@, assignee_ids: id_texts(self.assignee_ids@) }
    }
}

impl Clone for CardRecord {
    fn clone(&self) -> (r: Self)
        ensures
            r@ == self@,
    {
        let mut ids: Vec<FizzyId> = Vec::new();
        let mut i: usize = 0;
        while i < self.assignee_ids.len()
            invariant
                i <= self.assignee_ids.len(),
                ids.len() == i,
                forall|j: int| 0 <= j < i ==> ids@[j]@ == self.assignee_ids@[j]@,
            decreases self.assignee_ids.len() - i,
        {
            ids.push(self.assignee_ids[i].clone());
            i += 1;
        }
        assert(id_texts(ids@) =~= id_texts(self.assignee_ids@));
        CardRecord { card: self.card.clone(), assignee_ids: ids }
    }
}

/// A grant that lets one user use one board.
#[derive(Debug)]
pub struct Access {
    pub board_id: FizzyId,
    pub user_id: FizzyId,
}

impl View for Access {
    type V = AccessView;

    open spec fn view(&self) -> AccessView {
        AccessView { board_id: self.board_id@, user_id: self.user_id@ }
    }
}

/// A stored comment, without its content.
#[derive(Debug)]
pub struct CommentRow {
    pub id: FizzyId,
    pub account_id: FizzyId,
    pub card_id: FizzyId,
    pub creator_id: FizzyId,
    pub created_at: Timestamp,
    pub updated_at: Timestamp,
}

impl View for CommentRow {
    type V = CommentRowView;

    open spec fn view(&self) -> CommentRowView {
        CommentRowView {
            id: self.id@,
            account_id: self.account_id@,
            card_id: self.card_id@,
            creator_id: self.creator_id@,
            created_at: self.created_at,
            updated_at: self.updated_at,
        }
    }
}

/// The stored content of a comment.
#[derive(Debug)]
pub struct ContentRow {
    pub id: FizzyId,
    pub account_id: FizzyId,
    /// The comment that the content belongs to.
    pub record_id: FizzyId,
    pub body: String,
}

impl View for ContentRow {
    type V = ContentRowView;

    open spec fn view(&self) -> ContentRowView {
        ContentRowView {
            id: self.id@,
            account_id: self.account_id@,
            record_id: self.record_id@,
            body: self.body@,
        }
    }
}

/// A stored entry of the audit trail.
#[derive(Debug)]
pub struct EventRow {
    pub id: FizzyId,
    pub account_id: FizzyId,
    pub input: CreateEventInput,
    pub created_at: Timestamp,
}

impl View for EventRow {
    type V = EventRowView;

    open spec fn view(&self) -> EventRowView {
        EventRowView {
            id: self.id@,
            account_id: self.account_id@,
            input: self.input@,
            created_at: self.created_at,
        }
    }
}

/// A store in memory: boards, columns, grants, cards, comments with their
/// contents, and the audit trail, each in the order of its writes.
#[derive(Debug)]
pub struct MemoryStore {
    boards: Vec<Board>,
    columns: Vec<Column>,
    accesses: Vec<Access>,
    cards: Vec<CardRecord>,
    comments: Vec<CommentRow>,
    contents: Vec<ContentRow>,
    events: Vec<EventRow>,
    clock: i64,
    faults: Faults,
}

impl View for MemoryStore {
    type V = StoreView;

    closed spec fn view(&self) -> StoreView {
        StoreView {
            boards: self.boards@.map_values(|b: Board| b@),
            columns: self.columns@.map_values(|c: Column| c@),
            accesses: self.accesses@.map_values(|a: Access| a@),
            cards: self.cards@.map_values(|r: CardRecord| r@),
            comments: self.comments@.map_values(|c: CommentRow| c@),
            contents: self.contents@.map_values(|c: ContentRow| c@),
            events: self.events@.map_values(|e: EventRow| e@),
            clock: self.clock,
            faults: self.faults,
        }
    }
}

impl MemoryStore {
    /// Whether the store is well formed; every store that `new` made and
    /// that the operations below changed is.
    pub open spec fn wf(&self) -> bool {
        self@.wf()
    }

    /// A store with nothing in it, and no failures to simulate.
    pub fn new() -> (r: Self)
        ensures
            r@ == StoreView::empty(),
            r.wf(),
    {
        let r = MemoryStore {
            boards: Vec::new(),
            columns: Vec::new(),
            accesses: Vec::new(),
            cards: Vec::new(),
            comments: Vec::new(),
            contents: Vec::new(),
            events: Vec::new(),
            clock: 0,
            faults: Faults { content_writes: false, event_writes: false },
        };
        assert(r@.boards =~= Seq::empty());
        assert(r@.columns =~= Seq::empty());
        assert(r@.accesses =~= Seq::empty());
        assert(r@.cards =~= Seq::empty());
        assert(r@.comments =~= Seq::empty());
        assert(r@.contents =~= Seq::empty());
        assert(r@.events =~= Seq::empty());
        r
    }

    /// Tells the store which failures to simulate from now on.
    pub fn set_faults(&mut self, faults: Faults)
        ensures
            final(self)@ == (StoreView { faults, ..old(self)@ }),
    {
        self.faults = faults;
    }

    /// Moves the clock forward to `now`, where that is later.
    pub fn advance_clock(&mut self, now: Timestamp)
        ensures
            final(self)@ == (StoreView {
                clock: if now.micros > old(self)@.clock {
                    now.micros
                } else {
                    old(self)@.clock
                },
                ..old(self)@
            }),
            old(self).wf() ==> final(self).wf(),
    {
        if now.micros > self.clock {
            self.clock = now.micros;
        }
    }

    /// Puts a board into the store.
    pub fn insert_board(&mut self, board: Board)
        ensures
            final(self)@ == (StoreView { boards: old(self)@.boards.push(board@), ..old(self)@ }),
            old(self).wf() ==> final(self).wf(),
    {
        self.boards.push(board);
        assert(self@.boards =~= old(self)@.boards.push(board@));
    }

    /// Puts a column into the store.
    pub fn insert_column(&mut self, column: Column)
        ensures
            final(self)@ == (StoreView { columns: old(self)@.columns.push(column@), ..old(self)@ }),
            old(self).wf() ==> final(self).wf(),
    {
        self.columns.push(column);
        assert(self@.columns =~= old(self)@.columns.push(column@));
    }

    /// Lets a user use a board.
    pub fn grant_access(&mut self, board_id: FizzyId, user_id: FizzyId)
        ensures
            final(self)@ == (StoreView {
                accesses: old(self)@.accesses.push(
                    AccessView { board_id: board_id@, user_id: user_id@ },
                ),
                ..old(self)@
            }),
            old(self).wf() ==> final(self).wf(),
    {
        self.accesses.push(Access { board_id, user_id });
        assert(self@.accesses =~= old(self)@.accesses.push(
            AccessView { board_id: board_id@, user_id: user_id@ },
        ));
    }

    /// Puts a card into the store as it is given, and moves the clock to
    /// the time of the card's last activity where that is later.
    pub fn insert_card(&mut self, record: CardRecord)
        ensures
            final(self)@ == (StoreView {
                cards: old(self)@.cards.push(record@),
                clock: if record.card.last_active_at.micros > old(self)@.clock {
                    record.card.last_active_at.micros
                } else {
                    old(self)@.clock
                },
                ..old(self)@
            }),
            old(self).wf() ==> final(self).wf(),
    {
        if record.card.last_active_at.micros > self.clock {
            self.clock = record.card.last_active_at.micros;
        }
        self.cards.push(record);
        assert(self@.cards =~= old(self)@.cards.push(record@));
        assert(old(self).wf() ==> self.wf()) by {
            if old(self).wf() {
                assert forall|i: int| 0 <= i < self@.cards.len() implies (
                #[trigger] self@.cards[i]).card.last_active_at.micros <= self@.clock by {
                    if i < old(self)@.cards.len() {
                        assert(old(self)@.cards[i].card.last_active_at.micros <= old(
                            self,
                        )@.clock);
                    }
                }
            }
        }
    }

    /// How many cards the store holds.
    pub fn card_count(&self) -> (r: usize)
        ensures
            r == self@.cards.len(),
    {
        self.cards.len()
    }

    /// How many comments the store holds.
    pub fn comment_count(&self) -> (r: usize)
        ensures
            r == self@.comments.len(),
    {
        self.comments.len()
    }

    /// How many contents of comments the store holds.
    pub fn content_count(&self) -> (r: usize)
        ensures
            r == self@.contents.len(),
    {
        self.contents.len()
    }

    /// How many audit events the store holds.
    pub fn event_count(&self) -> (r: usize)
        ensures
            r == self@.events.len(),
    {
        self.events.len()
    }
}

/// Whether a status is one of a list.
fn has_status(list: &Vec<CardStatus>, status: CardStatus) -> (r: bool)
    ensures
        r == list@.contains(status),
{
    let mut i: usize = 0;
    while i < list.len()
        invariant
            i <= list.len(),
            forall|j: int| 0 <= j < i ==> list@[j] != status,
        decreases list.len() - i,
    {
        if list[i] == status {
            return true;
        }
        i += 1;
    }
    false
}

/// Whether an identifier is one of a list.
fn has_id(ids: &Vec<FizzyId>, id: &FizzyId) -> (r: bool)
    ensures
        r == id_texts(ids@).contains(id@),
{
    let mut i: usize = 0;
    while i < ids.len()
        invariant
            i <= ids.len(),
            forall|j: int| 0 <= j < i ==> id_texts(ids@)[j] != id@,
        decreases ids.len() - i,
    {
        if ids[i] == *id {
            assert(id_texts(ids@)[i as int] == id@);
            return true;
        }
        i += 1;
    }
    false
}

/// Whether an optional identifier is a given one.
fn is_id(o: &Option<FizzyId>, id: &FizzyId) -> (r: bool)
    ensures
        r == (opt_id(*o) == Some(id@)),
{
    match o {
        Some(x) => *x == *id,
        None => false,
    }
}

/// Whether a clause is true of a stored card.
pub fn clause_holds(clause: &Clause, record: &CardRecord) -> (r: bool)
    ensures
        r == clause@.holds(record@.facts()),
{
    match clause {
        Clause::Account(id) => record.card.account_id == *id,
        Clause::Assignee(id) => has_id(&record.assignee_ids, id),
        Clause::Board(id) => record.card.board_id == *id,
        Clause::Column(id) => is_id(&record.card.column_id, id),
        Clause::StatusIn(list) => has_status(list, record.card.status),
        Clause::StatusNotIn(list) => !has_status(list, record.card.status),
        Clause::Golden(golden) => record.card.is_golden == *golden,
    }
}

/// Whether every clause of a predicate is true of a stored card.
pub fn predicate_holds(clauses: &Vec<Clause>, record: &CardRecord) -> (r: bool)
    ensures
        r == all_hold(clause_views(clauses@), record@.facts()),
{
    let mut i: usize = 0;
    while i < clauses.len()
        invariant
            i <= clauses.len(),
            forall|j: int| 0 <= j < i ==> (#[trigger] clause_views(clauses@)[j]).holds(record@.facts()),
        decreases clauses.len() - i,
    {
        if !clause_holds(&clauses[i], record) {
            assert(!clause_views(clauses@)[i as int].holds(record@.facts()));
            return false;
        }
        i += 1;
    }
    true
}

/// Whether a stored card passes a filter, read off the filter itself.
pub fn filter_admits(filters: &CardFilters, record: &CardRecord) -> (r: bool)
    ensures
        r == filters@.matches(record@.facts()),
{
    if let Some(user) = &filters.assignee_id {
        if !has_id(&record.assignee_ids, user) {
            return false;
        }
    }
    if let Some(board) = &filters.board_id {
        if !(record.card.board_id == *board) {
            return false;
        }
    }
    if let Some(column) = &filters.column_id {
        if !is_id(&record.card.column_id, column) {
            return false;
        }
    }
    if let Some(allowed) = &filters.status {
        if allowed.len() > 0 && !has_status(allowed, record.card.status) {
            return false;
        }
    }
    if let Some(denied) = &filters.exclude_status {
        if has_status(denied, record.card.status) {
            return false;
        }
    }
    if let Some(golden) = filters.is_golden {
        if record.card.is_golden != golden {
            return false;
        }
    }
    true
}

impl MemoryStore {
    /// The place of the first card of an account with a number.
    fn card_place_by_number(&self, account_id: &FizzyId, number: i64) -> (r: Option<usize>)
        ensures
            match r {
                Some(k) => k < self.cards@.len() && self@.card_by_number(account_id@, number) == Some(k as int),
                None => self@.card_by_number(account_id@, number) is None,
            },
    {
        let ghost p = |r: CardRecordView| r.card.account_id == account_id@ && r.card.number == number;
        let mut i: usize = 0;
        while i < self.cards.len()
            invariant
                i <= self.cards.len(),
                p == |r: CardRecordView| r.card.account_id == account_id@ && r.card.number == number,
                forall|j: int| 0 <= j < i ==> !p(#[trigger] self@.cards[j]),
            decreases self.cards.len() - i,
        {
            if self.cards[i].card.account_id == *account_id && self.cards[i].card.number == number {
                proof {
                    assert(p(self@.cards[i as int]));
                    lemma_first_index_is(self@.cards, p, i as int);
                }
                return Some(i);
            }
            assert(!p(self@.cards[i as int]));
            i += 1;
        }
        proof {
            lemma_first_index_none(self@.cards, p);
        }
        None
    }

    /// The place of the first card of an account with an identifier.
    fn card_place_by_id(&self, account_id: &FizzyId, id: &FizzyId) -> (r: Option<usize>)
        ensures
            match r {
                Some(k) => k < self.cards@.len() && self@.card_by_id(account_id@, id@) == Some(k as int),
                None => self@.card_by_id(account_id@, id@) is None,
            },
    {
        let ghost p = |r: CardRecordView| r.card.account_id == account_id@ && r.card.id == id@;
        let mut i: usize = 0;
        while i < self.cards.len()
            invariant
                i <= self.cards.len(),
                p == |r: CardRecordView| r.card.account_id == account_id@ && r.card.id == id@,
                forall|j: int| 0 <= j < i ==> !p(#[trigger] self@.cards[j]),
            decreases self.cards.len() - i,
        {
            if self.cards[i].card.account_id == *account_id && self.cards[i].card.id == *id {
                proof {
                    assert(p(self@.cards[i as int]));
                    lemma_first_index_is(self@.cards, p, i as int);
                }
                return Some(i);
            }
            assert(!p(self@.cards[i as int]));
            i += 1;
        }
        proof {
            lemma_first_index_none(self@.cards, p);
        }
        None
    }

    /// The place of the first board with an identifier, in any account.
    fn board_place(&self, board_id: &FizzyId) -> (r: Option<usize>)
        ensures
            match r {
                Some(k) => k < self.boards@.len() && self@.board_of_card(board_id@) == Some(k as int),
                None => self@.board_of_card(board_id@) is None,
            },
    {
        let ghost p = |b: BoardView| b.id == board_id@;
        let mut i: usize = 0;
        while i < self.boards.len()
            invariant
                i <= self.boards.len(),
                p == |b: BoardView| b.id == board_id@,
                forall|j: int| 0 <= j < i ==> !p(#[trigger] self@.boards[j]),
            decreases self.boards.len() - i,
        {
            if self.boards[i].id == *board_id {
                proof {
                    assert(p(self@.boards[i as int]));
                    lemma_first_index_is(self@.boards, p, i as int);
                }
                return Some(i);
            }
            assert(!p(self@.boards[i as int]));
            i += 1;
        }
        proof {
            lemma_first_index_none(self@.boards, p);
        }
        None
    }

    /// The place of the first column with an identifier, in any account.
    fn column_place(&self, column_id: &FizzyId) -> (r: Option<usize>)
        ensures
            match r {
                Some(k) => k < self.columns@.len() && self@.column_of_card(column_id@) == Some(k as int),
                None => self@.column_of_card(column_id@) is None,
            },
    {
        let ghost p = |c: ColumnView| c.id == column_id@;
        let mut i: usize = 0;
        while i < self.columns.len()
            invariant
                i <= self.columns.len(),
                p == |c: ColumnView| c.id == column_id@,
                forall|j: int| 0 <= j < i ==> !p(#[trigger] self@.columns[j]),
            decreases self.columns.len() - i,
        {
            if self.columns[i].id == *column_id {
                proof {
                    assert(p(self@.columns[i as int]));
                    lemma_first_index_is(self@.columns, p, i as int);
                }
                return Some(i);
            }
            assert(!p(self@.columns[i as int]));
            i += 1;
        }
        proof {
            lemma_first_index_none(self@.columns, p);
        }
        None
    }

    /// A stored card as a read returns it.
    fn hydrate(&self, record: &CardRecord) -> (r: Card)
        ensures
            r@ == self@.hydrated(record@),
    {
        let mut card = record.card.clone();
        card.board_name = match self.board_place(&record.card.board_id) {
            Some(i) => Some(self.boards[i].name.clone()),
            None => None,
        };
        let column = match &record.card.column_id {
            Some(id) => self.column_place(id),
            None => None,
        };
        match column {
            Some(i) => {
                card.column_name = Some(self.columns[i].name.clone());
                card.column_color = Some(self.columns[i].color.clone());
            },
            None => {
                card.column_name = None;
                card.column_color = None;
            },
        }
        card
    }

    /// The first card of an account with a number, if there is one.
    pub fn find_by_number(&self, account_id: &FizzyId, number: i64) -> (r: Result<
        Option<Card>,
        DomainError,
    >)
        ensures
            match self@.card_by_number(account_id@, number) {
                Some(i) => r matches Ok(Some(card)) && card@ == self@.hydrated(self@.cards[i]),
                None => r matches Ok(None),
            },
    {
        match self.card_place_by_number(account_id, number) {
            Some(i) => Ok(Some(self.hydrate(&self.cards[i]))),
            None => Ok(None),
        }
    }

    /// The first card of an account with an identifier, if there is one.
    pub fn find_card_by_id(&self, account_id: &FizzyId, id: &FizzyId) -> (r: Result<
        Option<Card>,
        DomainError,
    >)
        ensures
            match self@.card_by_id(account_id@, id@) {
                Some(i) => r matches Ok(Some(card)) && card@ == self@.hydrated(self@.cards[i]),
                None => r matches Ok(None),
            },
    {
        match self.card_place_by_id(account_id, id) {
            Some(i) => Ok(Some(self.hydrate(&self.cards[i]))),
            None => Ok(None),
        }
    }

    /// The cards of an account that pass a filter, most recently active
    /// first, cut to the filter's offset and limit.
    ///
    /// The cards are selected by the clauses that the filter compiles to;
    /// they are the cards that pass the filter read directly.
    pub fn list(&self, account_id: &FizzyId, filters: &CardFilters) -> (r: Result<
        Vec<Card>,
        DomainError,
    >)
        ensures
            r matches Ok(cards) && card_views(cards@) == self@.listed(account_id@, filters@),
    {
        let clauses = filter_clauses(account_id, filters);
        let ghost selects = StoreView::selects(account_id@, filters@);
        let ghost store = self@;
        let ghost hydrated = |r: CardRecordView| store.hydrated(r);
        let mut found: Vec<Card> = Vec::new();
        let mut i: usize = 0;
        assert(store.cards.take(0).filter(selects) =~= Seq::empty()) by {
            reveal(Seq::filter);
        }
        assert(card_views(found@) =~= store.cards.take(0).filter(selects).map_values(hydrated));
        while i < self.cards.len()
            invariant
                i <= self.cards.len(),
                store == self@,
                selects == StoreView::selects(account_id@, filters@),
                hydrated == |r: CardRecordView| store.hydrated(r),
                clause_views(clauses@) == compiled(account_id@, filters@),
                card_views(found@) == store.cards.take(i as int).filter(selects).map_values(hydrated),
            decreases self.cards.len() - i,
        {
            proof {
                lemma_compiled_matches(account_id@, filters@, store.cards[i as int].facts());
                lemma_filter_step(store.cards, selects, i as int);
            }
            if predicate_holds(&clauses, &self.cards[i]) {
                let card = self.hydrate(&self.cards[i]);
                let ghost before = found@;
                found.push(card);
                assert(card_views(found@) =~= card_views(before).push(card@));
                assert(store.cards.take(i as int).filter(selects).push(
                    store.cards[i as int],
                ).map_values(hydrated) =~= store.cards.take(i as int).filter(selects).map_values(
                    hydrated,
                ).push(hydrated(store.cards[i as int])));
            }
            i += 1;
        }
        assert(store.cards.take(i as int) =~= store.cards);
        let ghost unsorted = found@;
        let sorted = sort_ranked(found);
        let ghost sorted_seq = sorted@;
        let cut = cut_window(sorted, filters.limit, filters.offset);
        proof {
            let image = |c: Card| c@;
            lemma_ranked_map(unsorted, rank_of::<Card>(), image, by_activity());
            lemma_window_map(sorted_seq, image, filters.limit, filters.offset);
        }
        Ok(cut)
    }
}

impl MemoryStore {
    /// A stored board as a read returns it.
    fn count_cards(&self, board: &Board) -> (r: Board)
        ensures
            r@ == self@.counted(board@),
    {
        let mut count: i64 = 0;
        let mut i: usize = 0;
        while i < self.cards.len()
            invariant
                i <= self.cards.len(),
                0 <= open_cards(self@.cards, board.id@, i as int) <= i,
                count == if open_cards(self@.cards, board.id@, i as int) <= i64::MAX {
                    open_cards(self@.cards, board.id@, i as int)
                } else {
                    i64::MAX as int
                },
            decreases self.cards.len() - i,
        {
            if self.cards[i].card.board_id == board.id && self.cards[i].card.status.is_active() {
                if count < i64::MAX {
                    count += 1;
                }
            }
            i += 1;
        }
        let mut out = board.clone();
        out.card_count = Some(count);
        out
    }

    /// Whether a grant lets a user use a board.
    fn is_granted(&self, board_id: &FizzyId, user_id: &FizzyId) -> (r: bool)
        ensures
            r == self@.granted(board_id@, user_id@),
    {
        let ghost p = |a: AccessView| a.board_id == board_id@ && a.user_id == user_id@;
        let mut i: usize = 0;
        while i < self.accesses.len()
            invariant
                i <= self.accesses.len(),
                p == |a: AccessView| a.board_id == board_id@ && a.user_id == user_id@,
                forall|j: int| 0 <= j < i ==> !p(#[trigger] self@.accesses[j]),
            decreases self.accesses.len() - i,
        {
            if self.accesses[i].board_id == *board_id && self.accesses[i].user_id == *user_id {
                proof {
                    assert(p(self@.accesses[i as int]));
                    lemma_first_index_is(self@.accesses, p, i as int);
                }
                return true;
            }
            assert(!p(self@.accesses[i as int]));
            i += 1;
        }
        proof {
            lemma_first_index_none(self@.accesses, p);
        }
        false
    }

    /// The place of the first board of an account with an identifier.
    fn board_place_by_id(&self, account_id: &FizzyId, id: &FizzyId) -> (r: Option<usize>)
        ensures
            match r {
                Some(k) => k < self.boards@.len() && self@.board_by_id(account_id@, id@) == Some(
                    k as int,
                ),
                None => self@.board_by_id(account_id@, id@) is None,
            },
    {
        let ghost p = |b: BoardView| b.account_id == account_id@ && b.id == id@;
        let mut i: usize = 0;
        while i < self.boards.len()
            invariant
                i <= self.boards.len(),
                p == |b: BoardView| b.account_id == account_id@ && b.id == id@,
                forall|j: int| 0 <= j < i ==> !p(#[trigger] self@.boards[j]),
            decreases self.boards.len() - i,
        {
            if self.boards[i].account_id == *account_id && self.boards[i].id == *id {
                proof {
                    assert(p(self@.boards[i as int]));
                    lemma_first_index_is(self@.boards, p, i as int);
                }
                return Some(i);
            }
            assert(!p(self@.boards[i as int]));
            i += 1;
        }
        proof {
            lemma_first_index_none(self@.boards, p);
        }
        None
    }

    /// The first board of an account with an identifier, if there is one,
    /// with the count of its open cards.
    pub fn find_board_by_id(&self, account_id: &FizzyId, id: &FizzyId) -> (r: Result<
        Option<Board>,
        DomainError,
    >)
        ensures
            match self@.board_by_id(account_id@, id@) {
                Some(i) => r matches Ok(Some(board)) && board@ == self@.counted(self@.boards[i]),
                None => r matches Ok(None),
            },
    {
        match self.board_place_by_id(account_id, id) {
            Some(i) => Ok(Some(self.count_cards(&self.boards[i]))),
            None => Ok(None),
        }
    }

    /// The first board of an account with a name, if there is one, with the
    /// count of its open cards. Capital letters of ASCII count as their
    /// lowercase, in the name asked for and in the names stored.
    pub fn find_by_name(&self, account_id: &FizzyId, name: &str) -> (r: Result<
        Option<Board>,
        DomainError,
    >)
        ensures
            match self@.board_by_name(account_id@, name@) {
                Some(i) => r matches Ok(Some(board)) && board@ == self@.counted(self@.boards[i]),
                None => r matches Ok(None),
            },
    {
        let ghost p = |b: BoardView|
            b.account_id == account_id@ && ascii_lowered(b.name) == ascii_lowered(name@);
        let mut i: usize = 0;
        while i < self.boards.len()
            invariant
                i <= self.boards.len(),
                p == |b: BoardView|
                    b.account_id == account_id@ && ascii_lowered(b.name) == ascii_lowered(name@),
                forall|j: int| 0 <= j < i ==> !p(#[trigger] self@.boards[j]),
            decreases self.boards.len() - i,
        {
            if self.boards[i].account_id == *account_id && eq_ignoring_ascii_case(
                self.boards[i].name.as_str(),
                name,
            ) {
                proof {
                    assert(p(self@.boards[i as int]));
                    lemma_first_index_is(self@.boards, p, i as int);
                }
                return Ok(Some(self.count_cards(&self.boards[i])));
            }
            assert(!p(self@.boards[i as int]));
            i += 1;
        }
        proof {
            lemma_first_index_none(self@.boards, p);
        }
        Ok(None)
    }

    /// Whether a user may use a board: the board is in the account and is
    /// open to all, or a grant names the user.
    pub fn user_has_access(&self, account_id: &FizzyId, board_id: &FizzyId, user_id: &FizzyId) -> (r:
        Result<bool, DomainError>)
        ensures
            r matches Ok(allowed) && allowed == self@.has_access(account_id@, board_id@, user_id@),
    {
        match self.board_place_by_id(account_id, board_id) {
            Some(i) => Ok(self.boards[i].all_access || self.is_granted(board_id, user_id)),
            None => Ok(false),
        }
    }

    /// The boards of an account that a user may use, by name, each with the
    /// count of its open cards.
    pub fn list_accessible(&self, account_id: &FizzyId, user_id: &FizzyId) -> (r: Result<
        Vec<Board>,
        DomainError,
    >)
        ensures
            r matches Ok(boards) && board_views(boards@) == self@.accessible_boards(
                account_id@,
                user_id@,
            ),
    {
        let ghost store = self@;
        let ghost selects = |b: BoardView|
            b.account_id == account_id@ && (b.all_access || store.granted(b.id, user_id@));
        let ghost counted = |b: BoardView| store.counted(b);
        let mut found: Vec<Board> = Vec::new();
        let mut i: usize = 0;
        assert(store.boards.take(0).filter(selects) =~= Seq::empty()) by {
            reveal(Seq::filter);
        }
        assert(board_views(found@) =~= store.boards.take(0).filter(selects).map_values(counted));
        while i < self.boards.len()
            invariant
                i <= self.boards.len(),
                store == self@,
                selects == |b: BoardView|
                    b.account_id == account_id@ && (b.all_access || store.granted(b.id, user_id@)),
                counted == |b: BoardView| store.counted(b),
                board_views(found@) == store.boards.take(i as int).filter(selects).map_values(
                    counted,
                ),
            decreases self.boards.len() - i,
        {
            proof {
                lemma_filter_step(store.boards, selects, i as int);
            }
            if self.boards[i].account_id == *account_id && (self.boards[i].all_access
                || self.is_granted(&self.boards[i].id, user_id)) {
                let board = self.count_cards(&self.boards[i]);
                let ghost before = found@;
                found.push(board);
                assert(board_views(found@) =~= board_views(before).push(board@));
                assert(store.boards.take(i as int).filter(selects).push(
                    store.boards[i as int],
                ).map_values(counted) =~= store.boards.take(i as int).filter(selects).map_values(
                    counted,
                ).push(counted(store.boards[i as int])));
            }
            i += 1;
        }
        assert(store.boards.take(i as int) =~= store.boards);
        let ghost unsorted = found@;
        let sorted = sort_ranked(found);
        proof {
            lemma_ranked_map(unsorted, rank_of::<Board>(), |b: Board| b@, by_name());
        }
        Ok(sorted)
    }

    /// The columns of a board, by position.
    pub fn get_columns(&self, account_id: &FizzyId, board_id: &FizzyId) -> (r: Result<
        Vec<Column>,
        DomainError,
    >)
        ensures
            r matches Ok(columns) && column_views(columns@) == self@.columns_of(
                account_id@,
                board_id@,
            ),
    {
        let ghost store = self@;
        let ghost selects = |c: ColumnView| c.account_id == account_id@ && c.board_id == board_id@;
        let mut found: Vec<Column> = Vec::new();
        let mut i: usize = 0;
        assert(store.columns.take(0).filter(selects) =~= Seq::empty()) by {
            reveal(Seq::filter);
        }
        assert(column_views(found@) =~= store.columns.take(0).filter(selects));
        while i < self.columns.len()
            invariant
                i <= self.columns.len(),
                store == self@,
                selects == |c: ColumnView| c.account_id == account_id@ && c.board_id == board_id@,
                column_views(found@) == store.columns.take(i as int).filter(selects),
            decreases self.columns.len() - i,
        {
            proof {
                lemma_filter_step(store.columns, selects, i as int);
            }
            if self.columns[i].account_id == *account_id && self.columns[i].board_id == *board_id {
                let column = self.columns[i].clone();
                let ghost before = found@;
                found.push(column);
                assert(column_views(found@) =~= column_views(before).push(column@));
            }
            i += 1;
        }
        assert(store.columns.take(i as int) =~= store.columns);
        let ghost unsorted = found@;
        let sorted = sort_ranked(found);
        proof {
            lemma_ranked_map(unsorted, rank_of::<Column>(), |c: Column| c@, by_position());
        }
        Ok(sorted)
    }
}

/// Whether a write ended as the model of the store says: with what it
/// returns and the store after it, or with the failure and the store as it
/// was.
pub open spec fn card_written(
    specified: Written<CardView>,
    before: StoreView,
    r: Result<Card, DomainError>,
    after: StoreView,
) -> bool {
    match specified {
        Ok((store, card)) => r matches Ok(c) && c@ == card && after == store,
        Err(e) => r matches Err(x) && x@ == e && after == before,
    }
}

/// As `card_written`, for an operation that returns a comment.
pub open spec fn comment_written(
    specified: Written<CommentView>,
    before: StoreView,
    r: Result<Comment, DomainError>,
    after: StoreView,
) -> bool {
    match specified {
        Ok((store, comment)) => r matches Ok(c) && c@ == comment && after == store,
        Err(e) => r matches Err(x) && x@ == e && after == before,
    }
}

/// As `card_written`, for an operation that returns nothing.
pub open spec fn unit_written(
    specified: Written<()>,
    before: StoreView,
    r: Result<(), DomainError>,
    after: StoreView,
) -> bool {
    match specified {
        Ok((store, _)) => r is Ok && after == store,
        Err(e) => r matches Err(x) && x@ == e && after == before,
    }
}

/// The failure of a store that cannot take a write.
fn store_error(message: &str) -> (r: DomainError)
    ensures
        r@ == store_failure(message@),
{
    DomainError::InfrastructureError(String::from_str(message))
}

/// The failure of a write to a card that the store does not hold.
fn card_missing_error(id: &FizzyId) -> (r: DomainError)
    ensures
        r@ == card_missing(id@),
{
    DomainError::NotFound { entity: String::from_str("Card"), id: id.to_string() }
}

impl MemoryStore {
    /// The comments of a card, most recent first, at most `limit` of them;
    /// with no limit given, at most 50.
    pub fn list_for_card(&self, account_id: &FizzyId, card_id: &FizzyId, limit: Option<i64>) -> (r:
        Result<Vec<Comment>, DomainError>)
        requires
            self.wf(),
        ensures
            r matches Ok(comments) && comment_views(comments@) == self@.comments_of(
                account_id@,
                card_id@,
                limit,
            ),
    {
        let ghost store = self@;
        let mut found: Vec<Comment> = Vec::new();
        let mut i: usize = 0;
        assert(comment_views(found@) =~= store.comments_among(account_id@, card_id@, 0));
        while i < self.comments.len()
            invariant
                i <= self.comments.len(),
                self.comments@.len() == self.contents@.len(),
                store == self@,
                comment_views(found@) == store.comments_among(account_id@, card_id@, i as int),
            decreases self.comments.len() - i,
        {
            if self.comments[i].account_id == *account_id && self.comments[i].card_id == *card_id {
                let comment = Comment {
                    id: self.comments[i].id.clone(),
                    account_id: self.comments[i].account_id.clone(),
                    card_id: self.comments[i].card_id.clone(),
                    creator_id: self.comments[i].creator_id.clone(),
                    content: self.contents[i].body.clone(),
                    created_at: self.comments[i].created_at,
                    updated_at: self.comments[i].updated_at,
                    creator_name: None,
                };
                let ghost before = found@;
                found.push(comment);
                assert(comment_views(found@) =~= comment_views(before).push(comment@));
            }
            i += 1;
        }
        let ghost unsorted = found@;
        let sorted = sort_ranked(found);
        let ghost sorted_seq = sorted@;
        let most: i64 = match limit {
            Some(n) => n,
            None => 50,
        };
        let cut = cut_window(sorted, Some(most), None);
        proof {
            let image = |c: Comment| c@;
            lemma_ranked_map(unsorted, rank_of::<Comment>(), image, by_creation());
            lemma_window_map(sorted_seq, image, Some(most), None);
        }
        Ok(cut)
    }

    /// The highest number of the cards of an account; zero where there is
    /// none above it.
    fn highest_number(&self, account_id: &FizzyId) -> (r: i64)
        ensures
            r == highest_number(self@.cards, account_id@, self@.cards.len() as int),
            r >= 0,
    {
        let mut highest: i64 = 0;
        let mut i: usize = 0;
        while i < self.cards.len()
            invariant
                i <= self.cards.len(),
                highest == highest_number(self@.cards, account_id@, i as int),
                highest >= 0,
            decreases self.cards.len() - i,
        {
            if self.cards[i].card.account_id == *account_id && self.cards[i].card.number > highest {
                highest = self.cards[i].card.number;
            }
            i += 1;
        }
        highest
    }

    /// Whether any card has an identifier.
    fn card_id_taken(&self, id: &FizzyId) -> (r: bool)
        ensures
            r == self@.card_id_taken(id@),
    {
        let ghost p = |r: CardRecordView| r.card.id == id@;
        let mut i: usize = 0;
        while i < self.cards.len()
            invariant
                i <= self.cards.len(),
                p == |r: CardRecordView| r.card.id == id@,
                forall|j: int| 0 <= j < i ==> !p(#[trigger] self@.cards[j]),
            decreases self.cards.len() - i,
        {
            if self.cards[i].card.id == *id {
                proof {
                    assert(p(self@.cards[i as int]));
                    lemma_first_index_is(self@.cards, p, i as int);
                }
                return true;
            }
            assert(!p(self@.cards[i as int]));
            i += 1;
        }
        proof {
            lemma_first_index_none(self@.cards, p);
        }
        false
    }

    /// Whether a column is one of a board's.
    fn column_on_board(&self, column_id: &FizzyId, board_id: &FizzyId) -> (r: bool)
        ensures
            r == self@.column_on_board(column_id@, board_id@),
    {
        let ghost p = |c: ColumnView| c.id == column_id@ && c.board_id == board_id@;
        let mut i: usize = 0;
        while i < self.columns.len()
            invariant
                i <= self.columns.len(),
                p == |c: ColumnView| c.id == column_id@ && c.board_id == board_id@,
                forall|j: int| 0 <= j < i ==> !p(#[trigger] self@.columns[j]),
            decreases self.columns.len() - i,
        {
            if self.columns[i].id == *column_id && self.columns[i].board_id == *board_id {
                proof {
                    assert(p(self@.columns[i as int]));
                    lemma_first_index_is(self@.columns, p, i as int);
                }
                return true;
            }
            assert(!p(self@.columns[i as int]));
            i += 1;
        }
        proof {
            lemma_first_index_none(self@.columns, p);
        }
        false
    }

    /// Creates a card under a given identifier.
    ///
    /// The card gets the next number of its account and the time of the
    /// write; nothing is written to the audit trail.
    pub fn create_with_id(&mut self, account_id: &FizzyId, input: CreateCardInput, id: FizzyId) -> (r:
        Result<Card, DomainError>)
        ensures
            card_written(
                old(self)@.create_card(account_id@, input@, id@),
                old(self)@,
                r,
                final(self)@,
            ),
            old(self).wf() ==> final(self).wf(),
    {
        if self.card_id_taken(&id) {
            return Err(store_error("card identifier already in use"));
        }
        if self.clock == i64::MAX {
            return Err(store_error("clock exhausted"));
        }
        let highest = self.highest_number(account_id);
        if highest == i64::MAX {
            return Err(store_error("card numbers exhausted"));
        }
        let now = Timestamp { micros: self.clock + 1 };
        let card = Card {
            id,
            account_id: account_id.clone(),
            board_id: input.board_id,
            column_id: input.column_id,
            creator_id: input.creator_id,
            number: highest + 1,
            title: input.title,
            description: input.description,
            status: input.status,
            due_on: None,
            last_active_at: now,
            created_at: now,
            updated_at: now,
            board_name: None,
            column_name: None,
            column_color: None,
            creator_name: None,
            assignee_names: Vec::new(),
            tag_titles: Vec::new(),
            is_golden: false,
        };
        let record = CardRecord { card, assignee_ids: Vec::new() };
        proof {
            assert(record@.assignee_ids =~= Seq::empty());
            assert(record@.card.assignee_names =~= Seq::empty());
            assert(record@.card.tag_titles =~= Seq::empty());
            assert(record@.card == old(self)@.new_card(account_id@, input@, id@));
        }
        let out = self.hydrate_after_push(&record);
        self.clock = now.micros;
        self.cards.push(record);
        proof {
            assert(self@.cards =~= old(self)@.cards.push(record@));
            if old(self).wf() {
                assert forall|i: int| 0 <= i < self@.cards.len() implies (
                #[trigger] self@.cards[i]).card.last_active_at.micros <= self@.clock by {
                    if i < old(self)@.cards.len() {
                        assert(old(self)@.cards[i].card.last_active_at.micros <= old(
                            self,
                        )@.clock);
                    }
                }
            }
        }
        Ok(out)
    }

    /// A card as a read returns it; what it is does not depend on the cards
    /// or the clock of the store.
    fn hydrate_after_push(&self, record: &CardRecord) -> (r: Card)
        ensures
            forall|other: StoreView|
                other.boards == self@.boards && other.columns == self@.columns ==> r@
                    == #[trigger] other.hydrated(record@),
    {
        self.hydrate(record)
    }

    /// Creates a card under a fresh identifier.
    pub fn create(&mut self, account_id: &FizzyId, input: CreateCardInput) -> (r: Result<
        Card,
        DomainError,
    >)
        ensures
            exists|id: Seq<char>|
                is_id_text(id) && card_written(
                    #[trigger] old(self)@.create_card(account_id@, input@, id),
                    old(self)@,
                    r,
                    final(self)@,
                ),
            old(self).wf() ==> final(self).wf(),
    {
        let id = FizzyId::generate();
        let ghost text = id@;
        let r = self.create_with_id(account_id, input, id);
        assert(card_written(
            old(self)@.create_card(account_id@, input@, text),
            old(self)@,
            r,
            self@,
        ));
        r
    }

    /// Changes the fields of a card that the update sets, and no others.
    pub fn update(&mut self, account_id: &FizzyId, card_id: &FizzyId, input: UpdateCardInput) -> (r:
        Result<Card, DomainError>)
        ensures
            card_written(
                old(self)@.update_card(account_id@, card_id@, input@),
                old(self)@,
                r,
                final(self)@,
            ),
            old(self).wf() ==> final(self).wf(),
    {
        let i = match self.card_place_by_id(account_id, card_id) {
            Some(i) => i,
            None => {
                return Err(card_missing_error(card_id));
            },
        };
        if let Some(column) = &input.column_id {
            if !self.column_on_board(column, &self.cards[i].card.board_id) {
                return Err(
                    DomainError::InvalidState {
                        message: String::from_str("Column does not belong to the card's board"),
                    },
                );
            }
        }
        let mut record = self.cards[i].clone();
        if let Some(title) = input.title {
            record.card.title = title;
        }
        if let Some(text) = input.description {
            record.card.description = Some(text);
        }
        if let Some(status) = input.status {
            record.card.status = status;
        }
        if let Some(id) = input.column_id {
            record.card.column_id = Some(id);
        }
        if let Some(day) = input.due_on {
            record.card.due_on = Some(day);
        }
        let out = self.hydrate_after_push(&record);
        self.cards.set(i, record);
        proof {
            let after = old(self)@.with_card(
                i as int,
                updated_card(old(self)@.cards[i as int].card, input@),
            );
            assert(self@.cards =~= after.cards);
            assert(self@ == after);
            if old(self).wf() {
                assert forall|k: int| 0 <= k < self@.cards.len() implies (
                #[trigger] self@.cards[k]).card.last_active_at.micros <= self@.clock by {
                    assert(old(self)@.cards[k].card.last_active_at.micros <= old(self)@.clock);
                }
            }
        }
        Ok(out)
    }

    /// Sets the status of a card, and nothing else.
    fn set_status(&mut self, account_id: &FizzyId, card_id: &FizzyId, status: CardStatus) -> (r:
        Result<(), DomainError>)
        ensures
            unit_written(
                old(self)@.set_status(account_id@, card_id@, status),
                old(self)@,
                r,
                final(self)@,
            ),
            old(self).wf() ==> final(self).wf(),
    {
        let i = match self.card_place_by_id(account_id, card_id) {
            Some(i) => i,
            None => {
                return Err(card_missing_error(card_id));
            },
        };
        let mut record = self.cards[i].clone();
        record.card.status = status;
        self.cards.set(i, record);
        proof {
            let after = old(self)@.with_card(
                i as int,
                CardView { status, ..old(self)@.cards[i as int].card },
            );
            assert(self@.cards =~= after.cards);
            assert(self@ == after);
            if old(self).wf() {
                assert forall|k: int| 0 <= k < self@.cards.len() implies (
                #[trigger] self@.cards[k]).card.last_active_at.micros <= self@.clock by {
                    assert(old(self)@.cards[k].card.last_active_at.micros <= old(self)@.clock);
                }
            }
        }
        Ok(())
    }

    /// Closes a card: its status becomes `Closed` and nothing else changes.
    pub fn close(&mut self, account_id: &FizzyId, card_id: &FizzyId, user_id: &FizzyId) -> (r: Result<
        (),
        DomainError,
    >)
        ensures
            unit_written(
                old(self)@.set_status(account_id@, card_id@, CardStatus::Closed),
                old(self)@,
                r,
                final(self)@,
            ),
            old(self).wf() ==> final(self).wf(),
    {
        self.set_status(account_id, card_id, CardStatus::Closed)
    }

    /// Reopens a card: its status becomes `Triaged`, whatever it was before
    /// the card was closed, and nothing else changes.
    pub fn reopen(&mut self, account_id: &FizzyId, card_id: &FizzyId) -> (r: Result<(), DomainError>)
        ensures
            unit_written(
                old(self)@.set_status(account_id@, card_id@, CardStatus::Triaged),
                old(self)@,
                r,
                final(self)@,
            ),
            old(self).wf() ==> final(self).wf(),
    {
        self.set_status(account_id, card_id, CardStatus::Triaged)
    }
}

impl MemoryStore {
    /// Whether any comment has an identifier.
    fn comment_id_taken(&self, id: &FizzyId) -> (r: bool)
        ensures
            r == self@.comment_id_taken(id@),
    {
        let ghost p = |c: CommentRowView| c.id == id@;
        let mut i: usize = 0;
        while i < self.comments.len()
            invariant
                i <= self.comments.len(),
                p == |c: CommentRowView| c.id == id@,
                forall|j: int| 0 <= j < i ==> !p(#[trigger] self@.comments[j]),
            decreases self.comments.len() - i,
        {
            if self.comments[i].id == *id {
                proof {
                    assert(p(self@.comments[i as int]));
                    lemma_first_index_is(self@.comments, p, i as int);
                }
                return true;
            }
            assert(!p(self@.comments[i as int]));
            i += 1;
        }
        proof {
            lemma_first_index_none(self@.comments, p);
        }
        false
    }

    /// Whether any content has an identifier.
    fn content_id_taken(&self, id: &FizzyId) -> (r: bool)
        ensures
            r == self@.content_id_taken(id@),
    {
        let ghost p = |c: ContentRowView| c.id == id@;
        let mut i: usize = 0;
        while i < self.contents.len()
            invariant
                i <= self.contents.len(),
                p == |c: ContentRowView| c.id == id@,
                forall|j: int| 0 <= j < i ==> !p(#[trigger] self@.contents[j]),
            decreases self.contents.len() - i,
        {
            if self.contents[i].id == *id {
                proof {
                    assert(p(self@.contents[i as int]));
                    lemma_first_index_is(self@.contents, p, i as int);
                }
                return true;
            }
            assert(!p(self@.contents[i as int]));
            i += 1;
        }
        proof {
            lemma_first_index_none(self@.contents, p);
        }
        false
    }

    /// Whether any event has an identifier.
    fn event_id_taken(&self, id: &FizzyId) -> (r: bool)
        ensures
            r == self@.event_id_taken(id@),
    {
        let ghost p = |e: EventRowView| e.id == id@;
        let mut i: usize = 0;
        while i < self.events.len()
            invariant
                i <= self.events.len(),
                p == |e: EventRowView| e.id == id@,
                forall|j: int| 0 <= j < i ==> !p(#[trigger] self@.events[j]),
            decreases self.events.len() - i,
        {
            if self.events[i].id == *id {
                proof {
                    assert(p(self@.events[i as int]));
                    lemma_first_index_is(self@.events, p, i as int);
                }
                return true;
            }
            assert(!p(self@.events[i as int]));
            i += 1;
        }
        proof {
            lemma_first_index_none(self@.events, p);
        }
        false
    }

    /// Writes a comment under given identifiers: the comment, its content,
    /// and the new time of the card's last activity and change.
    ///
    /// Every condition of the write is tested before anything is written, so
    /// the three are written together or not at all.
    pub fn create_comment_with_ids(
        &mut self,
        account_id: &FizzyId,
        card_id: &FizzyId,
        creator_id: &FizzyId,
        content: &str,
        comment_id: FizzyId,
        content_id: FizzyId,
    ) -> (r: Result<Comment, DomainError>)
        requires
            old(self).wf(),
        ensures
            comment_written(
                old(self)@.create_comment(
                    account_id@,
                    card_id@,
                    creator_id@,
                    content@,
                    comment_id@,
                    content_id@,
                ),
                old(self)@,
                r,
                final(self)@,
            ),
            final(self).wf(),
    {
        let i = match self.card_place_by_id(account_id, card_id) {
            Some(i) => i,
            None => {
                return Err(card_missing_error(card_id));
            },
        };
        if self.faults.content_writes {
            return Err(store_error("content write failed"));
        }
        if self.comment_id_taken(&comment_id) || self.content_id_taken(&content_id) {
            return Err(store_error("comment identifier already in use"));
        }
        if self.clock == i64::MAX {
            return Err(store_error("clock exhausted"));
        }
        let now = Timestamp { micros: self.clock + 1 };
        let comment = Comment {
            id: comment_id.clone(),
            account_id: account_id.clone(),
            card_id: card_id.clone(),
            creator_id: creator_id.clone(),
            content: String::from_str(content),
            created_at: now,
            updated_at: now,
            creator_name: None,
        };
        let row = CommentRow {
            id: comment_id.clone(),
            account_id: account_id.clone(),
            card_id: card_id.clone(),
            creator_id: creator_id.clone(),
            created_at: now,
            updated_at: now,
        };
        let body = ContentRow {
            id: content_id,
            account_id: account_id.clone(),
            record_id: comment_id,
            body: String::from_str(content),
        };
        let mut record = self.cards[i].clone();
        record.card.last_active_at = now;
        record.card.updated_at = now;
        self.comments.push(row);
        self.contents.push(body);
        self.cards.set(i, record);
        self.clock = now.micros;
        proof {
            let specified = old(self)@.create_comment(
                account_id@,
                card_id@,
                creator_id@,
                content@,
                comment_id@,
                content_id@,
            );
            let after = specified->Ok_0.0;
            assert(self@.comments =~= after.comments);
            assert(self@.contents =~= after.contents);
            assert(self@.cards =~= after.cards);
            assert(self@ == after);
            lemma_comment_written(
                old(self)@,
                account_id@,
                card_id@,
                creator_id@,
                content@,
                comment_id@,
                content_id@,
            );
        }
        Ok(comment)
    }

    /// Writes a comment under fresh identifiers.
    pub fn create_comment(
        &mut self,
        account_id: &FizzyId,
        card_id: &FizzyId,
        creator_id: &FizzyId,
        content: &str,
    ) -> (r: Result<Comment, DomainError>)
        requires
            old(self).wf(),
        ensures
            exists|comment_id: Seq<char>, content_id: Seq<char>|
                is_id_text(comment_id) && is_id_text(content_id) && comment_written(
                    #[trigger] old(self)@.create_comment(
                        account_id@,
                        card_id@,
                        creator_id@,
                        content@,
                        comment_id,
                        content_id,
                    ),
                    old(self)@,
                    r,
                    final(self)@,
                ),
            final(self).wf(),
    {
        let comment_id = FizzyId::generate();
        let content_id = FizzyId::generate();
        let ghost a = comment_id@;
        let ghost b = content_id@;
        let r = self.create_comment_with_ids(
            account_id,
            card_id,
            creator_id,
            content,
            comment_id,
            content_id,
        );
        assert(comment_written(
            old(self)@.create_comment(account_id@, card_id@, creator_id@, content@, a, b),
            old(self)@,
            r,
            self@,
        ));
        r
    }

    /// Writes an audit event under a given identifier.
    pub fn create_event_with_id(&mut self, account_id: &FizzyId, input: CreateEventInput, id: FizzyId) -> (r:
        Result<(), DomainError>)
        ensures
            unit_written(
                old(self)@.create_event(account_id@, input@, id@),
                old(self)@,
                r,
                final(self)@,
            ),
            old(self).wf() ==> final(self).wf(),
    {
        if self.faults.event_writes {
            return Err(store_error("event write failed"));
        }
        if self.event_id_taken(&id) {
            return Err(store_error("event identifier already in use"));
        }
        if self.clock == i64::MAX {
            return Err(store_error("clock exhausted"));
        }
        let now = Timestamp { micros: self.clock + 1 };
        let row = EventRow { id, account_id: account_id.clone(), input, created_at: now };
        self.events.push(row);
        self.clock = now.micros;
        proof {
            let after = old(self)@.create_event(account_id@, input@, id@)->Ok_0.0;
            assert(self@.events =~= after.events);
            assert(self@ == after);
            if old(self).wf() {
                assert forall|k: int| 0 <= k < self@.cards.len() implies (
                #[trigger] self@.cards[k]).card.last_active_at.micros <= self@.clock by {
                    assert(old(self)@.cards[k].card.last_active_at.micros <= old(self)@.clock);
                }
            }
        }
        Ok(())
    }

    /// Writes an audit event under a fresh identifier.
    pub fn create_event(&mut self, account_id: &FizzyId, input: CreateEventInput) -> (r: Result<
        (),
        DomainError,
    >)
        ensures
            exists|id: Seq<char>|
                is_id_text(id) && unit_written(
                    #[trigger] old(self)@.create_event(account_id@, input@, id),
                    old(self)@,
                    r,
                    final(self)@,
                ),
            old(self).wf() ==> final(self).wf(),
    {
        let id = FizzyId::generate();
        let ghost text = id@;
        let r = self.create_event_with_id(account_id, input, id);
        assert(unit_written(
            old(self)@.create_event(account_id@, input@, text),
            old(self)@,
            r,
            self@,
        ));
        r
    }
}

} // verus!
