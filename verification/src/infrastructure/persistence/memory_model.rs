//! What an in-memory store holds, as plain values, and what each of its
//! operations makes of that.

use vstd::prelude::*;
use crate::domain::entities::board::BoardView;
use crate::domain::entities::card::CardView;
use crate::domain::entities::column::ColumnView;
use crate::domain::entities::comment::CommentView;
use crate::domain::errors::DomainErrorView;
use crate::domain::ports::card_repository::{
    CardFacts, CardFiltersView, CreateCardInputView, UpdateCardInputView,
};
use crate::domain::ports::event_repository::CreateEventInputView;
use crate::domain::value_objects::card_status::CardStatus;
use crate::domain::value_objects::time::{Date, Timestamp};
use crate::seqs::{first_index, window};
use crate::sorting::ranked;
use crate::text::{ascii_lowered, lex_less};

verus! {

/// A stored card with the users it is assigned to.
pub struct CardRecordView {
    pub card: CardView,
    pub assignee_ids: Seq<Seq<char>>,
}

impl CardRecordView {
    /// What a filter reads of the card.
    pub open spec fn facts(self) -> CardFacts {
        CardFacts {
            account_id: self.card.account_id,
            board_id: self.card.board_id,
            column_id: self.card.column_id,
            status: self.card.status,
            is_golden: self.card.is_golden,
            assignee_ids: self.assignee_ids,
            last_active_at: self.card.last_active_at,
        }
    }
}

/// A grant that lets one user use one board.
pub struct AccessView {
    pub board_id: Seq<char>,
    pub user_id: Seq<char>,
}

/// A stored comment, without its content.
pub struct CommentRowView {
    pub id: Seq<char>,
    pub account_id: Seq<char>,
    pub card_id: Seq<char>,
    pub creator_id: Seq<char>,
    pub created_at: Timestamp,
    pub updated_at: Timestamp,
}

/// The stored content of a comment.
pub struct ContentRowView {
    pub id: Seq<char>,
    pub account_id: Seq<char>,
    /// The comment that the content belongs to.
    pub record_id: Seq<char>,
    pub body: Seq<char>,
}

/// A stored entry of the audit trail.
pub struct EventRowView {
    pub id: Seq<char>,
    pub account_id: Seq<char>,
    pub input: CreateEventInputView,
    pub created_at: Timestamp,
}

/// Failures that a store is told to simulate.
#[derive(Debug, Clone, Copy, PartialEq, Eq, Structural)]
pub struct Faults {
    /// Every write of a comment's content fails.
    pub content_writes: bool,
    /// Every write of an audit event fails.
    pub event_writes: bool,
}

/// Everything an in-memory store holds.
pub struct StoreView {
    pub boards: Seq<BoardView>,
    pub columns: Seq<ColumnView>,
    pub accesses: Seq<AccessView>,
    pub cards: Seq<CardRecordView>,
    pub comments: Seq<CommentRowView>,
    pub contents: Seq<ContentRowView>,
    pub events: Seq<EventRowView>,
    /// The time of the last write, in microseconds.
    pub clock: i64,
    pub faults: Faults,
}

/// Cards most recently active first.
pub open spec fn by_activity() -> spec_fn(CardView, CardView) -> bool {
    |a: CardView, b: CardView| a.last_active_at.micros >= b.last_active_at.micros
}

/// Boards by name, in the order of their characters.
pub open spec fn by_name() -> spec_fn(BoardView, BoardView) -> bool {
    |a: BoardView, b: BoardView| a.name == b.name || lex_less(a.name, b.name)
}

/// Columns by position.
pub open spec fn by_position() -> spec_fn(ColumnView, ColumnView) -> bool {
    |a: ColumnView, b: ColumnView| a.position <= b.position
}

/// Comments most recent first.
pub open spec fn by_creation() -> spec_fn(CommentView, CommentView) -> bool {
    |a: CommentView, b: CommentView| a.created_at.micros >= b.created_at.micros
}

/// How many of the first `n` cards are on a board and neither closed nor
/// postponed.
pub open spec fn open_cards(cards: Seq<CardRecordView>, board_id: Seq<char>, n: int) -> int
    decreases n,
{
    if n <= 0 {
        0
    } else {
        open_cards(cards, board_id, n - 1) + if cards[n - 1].card.board_id == board_id
            && cards[n - 1].card.status.active() {
            1int
        } else {
            0int
        }
    }
}

/// The highest number of the first `n` cards that belong to an account;
/// zero where there is none above it.
pub open spec fn highest_number(cards: Seq<CardRecordView>, account_id: Seq<char>, n: int) -> int
    decreases n,
{
    if n <= 0 {
        0
    } else {
        let before = highest_number(cards, account_id, n - 1);
        if cards[n - 1].card.account_id == account_id && cards[n - 1].card.number > before {
            cards[n - 1].card.number as int
        } else {
            before
        }
    }
}

impl StoreView {
    /// The store with nothing in it.
    pub open spec fn empty() -> StoreView {
        StoreView {
            boards: Seq::empty(),
            columns: Seq::empty(),
            accesses: Seq::empty(),
            cards: Seq::empty(),
            comments: Seq::empty(),
            contents: Seq::empty(),
            events: Seq::empty(),
            clock: 0,
            faults: Faults { content_writes: false, event_writes: false },
        }
    }

    /// What holds of every store: each comment has its content at the same
    /// place and each content belongs to the comment at its place, and no
    /// card was active after the time of the last write.
    pub open spec fn wf(self) -> bool {
        &&& self.comments.len() == self.contents.len()
        &&& forall|i: int|
            0 <= i < self.comments.len() ==> (#[trigger] self.contents[i]).record_id
                == self.comments[i].id
        &&& forall|i: int|
            0 <= i < self.cards.len() ==> (#[trigger] self.cards[i]).card.last_active_at.micros
                <= self.clock
    }

    /// The place of the first card of an account with a number.
    pub open spec fn card_by_number(self, account_id: Seq<char>, number: i64) -> Option<int> {
        first_index(
            self.cards,
            |r: CardRecordView| r.card.account_id == account_id && r.card.number == number,
        )
    }

    /// The place of the first card of an account with an identifier.
    pub open spec fn card_by_id(self, account_id: Seq<char>, id: Seq<char>) -> Option<int> {
        first_index(
            self.cards,
            |r: CardRecordView| r.card.account_id == account_id && r.card.id == id,
        )
    }

    /// The place of the first board with an identifier, in any account.
    pub open spec fn board_of_card(self, board_id: Seq<char>) -> Option<int> {
        first_index(self.boards, |b: BoardView| b.id == board_id)
    }

    /// The place of the first column with an identifier, in any account.
    pub open spec fn column_of_card(self, column_id: Seq<char>) -> Option<int> {
        first_index(self.columns, |c: ColumnView| c.id == column_id)
    }

    /// The place of the first board of an account with an identifier.
    pub open spec fn board_by_id(self, account_id: Seq<char>, id: Seq<char>) -> Option<int> {
        first_index(self.boards, |b: BoardView| b.account_id == account_id && b.id == id)
    }

    /// The place of the first board of an account with a name, capital
    /// letters of ASCII counting as their lowercase.
    pub open spec fn board_by_name(self, account_id: Seq<char>, name: Seq<char>) -> Option<int> {
        first_index(
            self.boards,
            |b: BoardView| b.account_id == account_id && ascii_lowered(b.name) == ascii_lowered(name),
        )
    }

    /// A stored card as a read returns it: with the name of its board and
    /// the name and color of its column, where the store has them.
    pub open spec fn hydrated(self, record: CardRecordView) -> CardView {
        let board_name = match self.board_of_card(record.card.board_id) {
            Some(i) => Some(self.boards[i].name),
            None => None,
        };
        let column = match record.card.column_id {
            Some(id) => self.column_of_card(id),
            None => None,
        };
        CardView {
            board_name,
            column_name: match column {
                Some(i) => Some(self.columns[i].name),
                None => None,
            },
            column_color: match column {
                Some(i) => Some(self.columns[i].color),
                None => None,
            },
            ..record.card
        }
    }

    /// A stored board as a read returns it: with the count of its cards
    /// that are neither closed nor postponed.
    pub open spec fn counted(self, board: BoardView) -> BoardView {
        let count = open_cards(self.cards, board.id, self.cards.len() as int);
        BoardView {
            card_count: Some(
                if count <= i64::MAX {
                    count as i64
                } else {
                    i64::MAX
                },
            ),
            ..board
        }
    }

    /// Whether a card belongs to an account and passes a filter.
    pub open spec fn selects(account_id: Seq<char>, filters: CardFiltersView) -> spec_fn(
        CardRecordView,
    ) -> bool {
        |r: CardRecordView| r.card.account_id == account_id && filters.matches(r.facts())
    }

    /// The cards that a listing returns: those of the account that pass the
    /// filter, as a read returns them, most recently active first, cut to
    /// the filter's offset and limit.
    pub open spec fn listed(self, account_id: Seq<char>, filters: CardFiltersView) -> Seq<CardView> {
        window(
            ranked(
                self.cards.filter(Self::selects(account_id, filters)).map_values(
                    |r: CardRecordView| self.hydrated(r),
                ),
                by_activity(),
            ),
            filters.limit,
            filters.offset,
        )
    }

    /// Whether a user may use a board: the board is in the account and is
    /// open to all, or a grant names the user.
    pub open spec fn has_access(
        self,
        account_id: Seq<char>,
        board_id: Seq<char>,
        user_id: Seq<char>,
    ) -> bool {
        match self.board_by_id(account_id, board_id) {
            Some(i) => self.boards[i].all_access || self.granted(board_id, user_id),
            None => false,
        }
    }

    /// Whether a grant lets a user use a board.
    pub open spec fn granted(self, board_id: Seq<char>, user_id: Seq<char>) -> bool {
        first_index(
            self.accesses,
            |a: AccessView| a.board_id == board_id && a.user_id == user_id,
        ) is Some
    }

    /// The boards of an account that a user may use, by name.
    pub open spec fn accessible_boards(self, account_id: Seq<char>, user_id: Seq<char>) -> Seq<
        BoardView,
    > {
        ranked(
            self.boards.filter(
                |b: BoardView|
                    b.account_id == account_id && (b.all_access || self.granted(b.id, user_id)),
            ).map_values(|b: BoardView| self.counted(b)),
            by_name(),
        )
    }

    /// The columns of a board, by position.
    pub open spec fn columns_of(self, account_id: Seq<char>, board_id: Seq<char>) -> Seq<ColumnView> {
        ranked(
            self.columns.filter(
                |c: ColumnView| c.account_id == account_id && c.board_id == board_id,
            ),
            by_position(),
        )
    }

    /// The comment at a place, with the content at the same place.
    pub open spec fn comment_at(self, i: int) -> CommentView {
        CommentView {
            id: self.comments[i].id,
            account_id: self.comments[i].account_id,
            card_id: self.comments[i].card_id,
            creator_id: self.comments[i].creator_id,
            content: self.contents[i].body,
            created_at: self.comments[i].created_at,
            updated_at: self.comments[i].updated_at,
            creator_name: None,
        }
    }

    /// The comments of a card among the first `n`, in stored order.
    pub open spec fn comments_among(self, account_id: Seq<char>, card_id: Seq<char>, n: int) -> Seq<
        CommentView,
    >
        decreases n,
    {
        if n <= 0 {
            Seq::empty()
        } else {
            let before = self.comments_among(account_id, card_id, n - 1);
            if self.comments[n - 1].account_id == account_id && self.comments[n - 1].card_id
                == card_id {
                before.push(self.comment_at(n - 1))
            } else {
                before
            }
        }
    }

    /// The comments of a card, most recent first, at most `limit` of them;
    /// with no limit given, at most 50.
    pub open spec fn comments_of(
        self,
        account_id: Seq<char>,
        card_id: Seq<char>,
        limit: Option<i64>,
    ) -> Seq<CommentView> {
        window(
            ranked(
                self.comments_among(account_id, card_id, self.comments.len() as int),
                by_creation(),
            ),
            Some(
                match limit {
                    Some(n) => n,
                    None => 50i64,
                },
            ),
            None,
        )
    }

    /// Whether any card has an identifier.
    pub open spec fn card_id_taken(self, id: Seq<char>) -> bool {
        first_index(self.cards, |r: CardRecordView| r.card.id == id) is Some
    }

    /// Whether any comment has an identifier.
    pub open spec fn comment_id_taken(self, id: Seq<char>) -> bool {
        first_index(self.comments, |c: CommentRowView| c.id == id) is Some
    }

    /// Whether any content has an identifier.
    pub open spec fn content_id_taken(self, id: Seq<char>) -> bool {
        first_index(self.contents, |c: ContentRowView| c.id == id) is Some
    }

    /// Whether any event has an identifier.
    pub open spec fn event_id_taken(self, id: Seq<char>) -> bool {
        first_index(self.events, |e: EventRowView| e.id == id) is Some
    }

    /// The time that the next write is stamped with.
    pub open spec fn next_time(self) -> Timestamp {
        Timestamp { micros: (self.clock + 1) as i64 }
    }
}

/// What a write gives: the store after it with what it returns, or the
/// failure that left the store as it was.
pub type Written<T> = Result<(StoreView, T), DomainErrorView>;

/// The failure of a store that cannot take a write.
pub open spec fn store_failure(message: Seq<char>) -> DomainErrorView {
    DomainErrorView::InfrastructureError(message)
}

/// The failure of a write to a card that the store does not hold.
pub open spec fn card_missing(id: Seq<char>) -> DomainErrorView {
    DomainErrorView::NotFound { entity: "Card"@, id }
}

/// A card after a partial update: each field that the update sets has the
/// new value, every other field the old one.
pub open spec fn updated_card(card: CardView, input: UpdateCardInputView) -> CardView {
    CardView {
        title: match input.title {
            Some(title) => title,
            None => card.title,
        },
        description: match input.description {
            Some(text) => Some(text),
            None => card.description,
        },
        status: match input.status {
            Some(status) => status,
            None => card.status,
        },
        column_id: match input.column_id {
            Some(id) => Some(id),
            None => card.column_id,
        },
        due_on: match input.due_on {
            Some(day) => Some(day),
            None => card.due_on,
        },
        ..card
    }
}

impl StoreView {
    /// The store with the card at a place replaced.
    pub open spec fn with_card(self, i: int, card: CardView) -> StoreView {
        StoreView {
            cards: self.cards.update(
                i,
                CardRecordView { card, assignee_ids: self.cards[i].assignee_ids },
            ),
            ..self
        }
    }

    /// Whether a column is one of a board's.
    pub open spec fn column_on_board(self, column_id: Seq<char>, board_id: Seq<char>) -> bool {
        first_index(
            self.columns,
            |c: ColumnView| c.id == column_id && c.board_id == board_id,
        ) is Some
    }

    /// The card that a creation stores: the input's fields, the next number
    /// of the account, the time of the write as the time of its creation, of
    /// its last change and of its last activity, and no display fields.
    pub open spec fn new_card(
        self,
        account_id: Seq<char>,
        input: CreateCardInputView,
        id: Seq<char>,
    ) -> CardView {
        CardView {
            id,
            account_id,
            board_id: input.board_id,
            column_id: input.column_id,
            creator_id: input.creator_id,
            number: (highest_number(self.cards, account_id, self.cards.len() as int) + 1) as i64,
            title: input.title,
            description: input.description,
            status: input.status,
            due_on: None,
            last_active_at: self.next_time(),
            created_at: self.next_time(),
            updated_at: self.next_time(),
            board_name: None,
            column_name: None,
            column_color: None,
            creator_name: None,
            assignee_names: Seq::empty(),
            tag_titles: Seq::empty(),
            is_golden: false,
        }
    }

    /// Creating a card under a given identifier.
    ///
    /// Fails, and stores nothing, where the identifier is taken, the clock
    /// is at its end or the account's numbers are used up.
    pub open spec fn create_card(
        self,
        account_id: Seq<char>,
        input: CreateCardInputView,
        id: Seq<char>,
    ) -> Written<CardView> {
        if self.card_id_taken(id) {
            Err(store_failure("card identifier already in use"@))
        } else if self.clock == i64::MAX {
            Err(store_failure("clock exhausted"@))
        } else if highest_number(self.cards, account_id, self.cards.len() as int) >= i64::MAX {
            Err(store_failure("card numbers exhausted"@))
        } else {
            let card = self.new_card(account_id, input, id);
            let after = StoreView {
                cards: self.cards.push(CardRecordView { card, assignee_ids: Seq::empty() }),
                clock: self.next_time().micros,
                ..self
            };
            Ok((after, after.hydrated(CardRecordView { card, assignee_ids: Seq::empty() })))
        }
    }

    /// Updating the first card of an account with an identifier.
    ///
    /// Fails, and changes nothing, where there is no such card, or where
    /// the update names a column that is not one of the card's board.
    pub open spec fn update_card(
        self,
        account_id: Seq<char>,
        card_id: Seq<char>,
        input: UpdateCardInputView,
    ) -> Written<CardView> {
        match self.card_by_id(account_id, card_id) {
            None => Err(card_missing(card_id)),
            Some(i) => {
                let card = self.cards[i].card;
                if input.column_id matches Some(column) && !self.column_on_board(
                    column,
                    card.board_id,
                ) {
                    Err(
                        DomainErrorView::InvalidState {
                            message: "Column does not belong to the card's board"@,
                        },
                    )
                } else {
                    let after = self.with_card(i, updated_card(card, input));
                    Ok((after, after.hydrated(after.cards[i])))
                }
            },
        }
    }

    /// Setting the status of the first card of an account with an
    /// identifier, and nothing else.
    pub open spec fn set_status(
        self,
        account_id: Seq<char>,
        card_id: Seq<char>,
        status: CardStatus,
    ) -> Written<()> {
        match self.card_by_id(account_id, card_id) {
            None => Err(card_missing(card_id)),
            Some(i) => Ok(
                (self.with_card(i, CardView { status, ..self.cards[i].card }), ()),
            ),
        }
    }

    /// Writing a comment under given identifiers: the comment, its content,
    /// and the new time of the card's last activity and change, all three
    /// or none.
    ///
    /// Fails, and writes nothing, where the account has no such card, the
    /// write of the content fails, an identifier is taken or the clock is at
    /// its end.
    pub open spec fn create_comment(
        self,
        account_id: Seq<char>,
        card_id: Seq<char>,
        creator_id: Seq<char>,
        content: Seq<char>,
        comment_id: Seq<char>,
        content_id: Seq<char>,
    ) -> Written<CommentView> {
        match self.card_by_id(account_id, card_id) {
            None => Err(card_missing(card_id)),
            Some(i) => if self.faults.content_writes {
                Err(store_failure("content write failed"@))
            } else if self.comment_id_taken(comment_id) || self.content_id_taken(content_id) {
                Err(store_failure("comment identifier already in use"@))
            } else if self.clock == i64::MAX {
                Err(store_failure("clock exhausted"@))
            } else {
                let now = self.next_time();
                let row = CommentRowView {
                    id: comment_id,
                    account_id,
                    card_id,
                    creator_id,
                    created_at: now,
                    updated_at: now,
                };
                let body = ContentRowView {
                    id: content_id,
                    account_id,
                    record_id: comment_id,
                    body: content,
                };
                let card = CardView {
                    last_active_at: now,
                    updated_at: now,
                    ..self.cards[i].card
                };
                let after = StoreView {
                    comments: self.comments.push(row),
                    contents: self.contents.push(body),
                    clock: now.micros,
                    ..self.with_card(i, card)
                };
                Ok((after, after.comment_at(self.comments.len() as int)))
            },
        }
    }

    /// Writing an audit event under a given identifier.
    ///
    /// Fails, and writes nothing, where event writes fail, the identifier is
    /// taken or the clock is at its end.
    pub open spec fn create_event(
        self,
        account_id: Seq<char>,
        input: CreateEventInputView,
        id: Seq<char>,
    ) -> Written<()> {
        if self.faults.event_writes {
            Err(store_failure("event write failed"@))
        } else if self.event_id_taken(id) {
            Err(store_failure("event identifier already in use"@))
        } else if self.clock == i64::MAX {
            Err(store_failure("clock exhausted"@))
        } else {
            let row = EventRowView { id, account_id, input, created_at: self.next_time() };
            Ok((StoreView { events: self.events.push(row), clock: self.next_time().micros, ..self }, ()))
        }
    }
}

/// A write of a comment that succeeds leaves the comment and its content
/// in the store, at one place, and makes the card's last activity strictly
/// later than it was; the store stays well formed.
pub proof fn lemma_comment_written(
    store: StoreView,
    account_id: Seq<char>,
    card_id: Seq<char>,
    creator_id: Seq<char>,
    content: Seq<char>,
    comment_id: Seq<char>,
    content_id: Seq<char>,
)
    requires
        store.wf(),
        store.create_comment(account_id, card_id, creator_id, content, comment_id, content_id) is Ok,
    ensures
        ({
            let after = store.create_comment(
                account_id,
                card_id,
                creator_id,
                content,
                comment_id,
                content_id,
            )->Ok_0.0;
            let place = store.comments.len() as int;
            let card = store.card_by_id(account_id, card_id)->Some_0;
            &&& after.wf()
            &&& after.comments.len() == store.comments.len() + 1
            &&& after.contents.len() == store.contents.len() + 1
            &&& after.comments[place].id == comment_id
            &&& after.comments[place].card_id == card_id
            &&& after.contents[place].record_id == comment_id
            &&& after.contents[place].body == content
            &&& after.comment_id_taken(comment_id)
            &&& 0 <= card < store.cards.len() == after.cards.len()
            &&& after.cards[card].card.last_active_at.later_than(
                store.cards[card].card.last_active_at,
            )
            &&& after.cards[card].card.id == card_id
            &&& after.boards == store.boards
            &&& after.columns == store.columns
            &&& after.events == store.events
        }),
{
    let after = store.create_comment(
        account_id,
        card_id,
        creator_id,
        content,
        comment_id,
        content_id,
    )->Ok_0.0;
    let place = store.comments.len() as int;
    crate::seqs::lemma_first_index(
        store.cards,
        |r: CardRecordView| r.card.account_id == account_id && r.card.id == card_id,
    );
    let p = |c: CommentRowView| c.id == comment_id;
    crate::seqs::lemma_first_index(after.comments, p);
    assert(p(after.comments[place]));
    assert forall|i: int| 0 <= i < after.comments.len() implies (#[trigger] after.contents[i]).record_id
        == after.comments[i].id by {
        if i < place {
            assert(store.contents[i].record_id == store.comments[i].id);
        }
    }
    assert forall|i: int| 0 <= i < after.cards.len() implies (#[trigger] after.cards[i]).card.last_active_at.micros
        <= after.clock by {
        assert(store.cards[i].card.last_active_at.micros <= store.clock);
    }
}

/// A write of a comment whose content cannot be written fails, whatever
/// else holds; and a write that fails is no write: the exec operations give
/// back the store as it was.
pub proof fn lemma_comment_needs_content(
    store: StoreView,
    account_id: Seq<char>,
    card_id: Seq<char>,
    creator_id: Seq<char>,
    content: Seq<char>,
    comment_id: Seq<char>,
    content_id: Seq<char>,
)
    requires
        store.faults.content_writes,
    ensures
        store.create_comment(account_id, card_id, creator_id, content, comment_id, content_id) is Err,
{
}

/// The highest number of an account is not below the number of any card
/// of the account.
pub proof fn lemma_highest_number(cards: Seq<CardRecordView>, account_id: Seq<char>, n: int)
    requires
        0 <= n <= cards.len(),
    ensures
        highest_number(cards, account_id, n) >= 0,
        forall|i: int|
            0 <= i < n && (#[trigger] cards[i]).card.account_id == account_id
                ==> cards[i].card.number <= highest_number(cards, account_id, n),
    decreases n,
{
    if n > 0 {
        lemma_highest_number(cards, account_id, n - 1);
    }
}

/// Numbers never repeat within an account: a card that is created gets a
/// number above the number of every card that the account had.
pub proof fn lemma_new_number_is_unused(
    store: StoreView,
    account_id: Seq<char>,
    input: CreateCardInputView,
    id: Seq<char>,
)
    requires
        store.create_card(account_id, input, id) is Ok,
    ensures
        forall|i: int|
            0 <= i < store.cards.len() && (#[trigger] store.cards[i]).card.account_id == account_id
                ==> store.cards[i].card.number < store.create_card(
                account_id,
                input,
                id,
            )->Ok_0.1.number,
        store.create_card(account_id, input, id)->Ok_0.1.last_active_at == store.create_card(
            account_id,
            input,
            id,
        )->Ok_0.1.created_at,
{
    lemma_highest_number(store.cards, account_id, store.cards.len() as int);
}

/// A listing is in its fixed order: each card was active no earlier than
/// the card behind it.
pub proof fn lemma_listed_most_recent_first(
    store: StoreView,
    account_id: Seq<char>,
    filters: CardFiltersView,
)
    ensures
        forall|i: int|
            0 <= i < store.listed(account_id, filters).len() - 1 ==> (#[trigger] store.listed(
                account_id,
                filters,
            )[i]).last_active_at.micros >= store.listed(account_id, filters)[i
                + 1].last_active_at.micros,
{
    let selected = store.cards.filter(StoreView::selects(account_id, filters)).map_values(
        |r: CardRecordView| store.hydrated(r),
    );
    let ordered = ranked(selected, by_activity());
    let listed = store.listed(account_id, filters);
    assert forall|a: CardView, b: CardView| #[trigger]
        by_activity()(a, b) || by_activity()(b, a) by {}
    crate::sorting::lemma_ranked_in_order(selected, by_activity());
    crate::seqs::lemma_window_is_a_run(ordered, filters.limit, filters.offset);
    let start = crate::seqs::window_start(ordered.len(), filters.offset);
    assert forall|i: int| 0 <= i < listed.len() - 1 implies (#[trigger] listed[i]).last_active_at.micros
        >= listed[i + 1].last_active_at.micros by {
        assert(listed[i] == ordered[start + i]);
        assert(listed[i + 1] == ordered[start + i + 1]);
        assert(by_activity()(ordered[start + i], ordered[start + i + 1]));
    }
}

/// Every card of a listing belongs to the account and passes the filter,
/// and the listing holds no more cards than its limit allows.
pub proof fn lemma_listed_cards_pass(
    store: StoreView,
    account_id: Seq<char>,
    filters: CardFiltersView,
    i: int,
)
    requires
        0 <= i < store.listed(account_id, filters).len(),
    ensures
        exists|k: int|
            0 <= k < store.cards.len() && store.listed(account_id, filters)[i] == store.hydrated(
                #[trigger] store.cards[k],
            ) && store.cards[k].card.account_id == account_id && filters.matches(
                store.cards[k].facts(),
            ),
        filters.limit matches Some(n) ==> n >= 0 ==> store.listed(account_id, filters).len() <= n,
{
    broadcast use vstd::seq_lib::group_filter_ensures;

    let selects = StoreView::selects(account_id, filters);
    let passing = store.cards.filter(selects);
    let selected = passing.map_values(|r: CardRecordView| store.hydrated(r));
    let ordered = ranked(selected, by_activity());
    let listed = store.listed(account_id, filters);
    crate::seqs::lemma_window_is_a_run(ordered, filters.limit, filters.offset);
    let start = crate::seqs::window_start(ordered.len(), filters.offset);
    let card = listed[i];
    assert(card == ordered[start + i]);
    crate::sorting::lemma_ranked_items(selected, by_activity());
    assert(ordered.contains(card));
    vstd::seq_lib::to_multiset_contains(ordered, card);
    vstd::seq_lib::to_multiset_contains(selected, card);
    assert(selected.contains(card));
    let j = choose|j: int| 0 <= j < selected.len() && selected[j] == card;
    let record = passing[j];
    assert(passing.contains(record));
    assert(selects(record));
    store.cards.lemma_filter_contains_rev(selects, record);
    assert(store.cards.contains(record));
    let k = choose|k: int| 0 <= k < store.cards.len() && store.cards[k] == record;
    assert(selects(store.cards[k]));
}

} // verus!
