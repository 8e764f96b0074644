//! How a use case and the store talk: the use case asks for one store
//! operation at a time, is told how it went, and decides what comes next.

use vstd::prelude::*;
use crate::application::errors::{ApplicationError, ApplicationErrorView};
use crate::domain::entities::board::{board_views, Board, BoardView};
use crate::domain::entities::card::{card_views, Card, CardView};
use crate::domain::entities::column::{column_views, Column, ColumnView};
use crate::domain::entities::comment::{Comment, CommentView};
use crate::domain::errors::{DomainError, DomainErrorView};
use crate::domain::ports::card_repository::{
    CardFilters, CardFiltersView, CreateCardInput, CreateCardInputView, UpdateCardInput,
    UpdateCardInputView,
};
use crate::domain::ports::event_repository::{CreateEventInput, CreateEventInputView};
use crate::domain::value_objects::fizzy_id::FizzyId;
use crate::text::{decimal_text, push_decimal};
use vstd::string::*;

verus! {

/// One store operation that a use case asks for.
#[derive(Debug)]
pub enum Request {
    FindCardByNumber { account_id: FizzyId, number: i64 },
    FindBoardByName { account_id: FizzyId, name: String },
    UserHasAccess { account_id: FizzyId, board_id: FizzyId, user_id: FizzyId },
    GetColumns { account_id: FizzyId, board_id: FizzyId },
    ListAccessibleBoards { account_id: FizzyId, user_id: FizzyId },
    ListCards { account_id: FizzyId, filters: CardFilters },
    CreateCard { account_id: FizzyId, card: CreateCardInput },
    UpdateCard { account_id: FizzyId, card_id: FizzyId, changes: UpdateCardInput },
    CloseCard { account_id: FizzyId, card_id: FizzyId, user_id: FizzyId },
    ReopenCard { account_id: FizzyId, card_id: FizzyId },
    CreateComment { account_id: FizzyId, card_id: FizzyId, creator_id: FizzyId, content: String },
    /// Write an audit event. Whether the write succeeds is of no
    /// consequence to the use case.
    EmitEvent { account_id: FizzyId, entry: CreateEventInput },
}

/// What a request holds, as plain values.
pub enum RequestView {
    FindCardByNumber { account_id: Seq<char>, number: i64 },
    FindBoardByName { account_id: Seq<char>, name: Seq<char> },
    UserHasAccess { account_id: Seq<char>, board_id: Seq<char>, user_id: Seq<char> },
    GetColumns { account_id: Seq<char>, board_id: Seq<char> },
    ListAccessibleBoards { account_id: Seq<char>, user_id: Seq<char> },
    ListCards { account_id: Seq<char>, filters: CardFiltersView },
    CreateCard { account_id: Seq<char>, card: CreateCardInputView },
    UpdateCard { account_id: Seq<char>, card_id: Seq<char>, changes: UpdateCardInputView },
    CloseCard { account_id: Seq<char>, card_id: Seq<char>, user_id: Seq<char> },
    ReopenCard { account_id: Seq<char>, card_id: Seq<char> },
    CreateComment {
        account_id: Seq<char>,
        card_id: Seq<char>,
        creator_id: Seq<char>,
        content: Seq<char>,
    },
    EmitEvent { account_id: Seq<char>, entry: CreateEventInputView },
}

impl View for Request {
    type V = RequestView;

    open spec fn view(&self) -> RequestView {
        match self {
            Request::FindCardByNumber { account_id, number } => RequestView::FindCardByNumber {
                account_id: account_id@,
                number: *number,
            },
            Request::FindBoardByName { account_id, name } => RequestView::FindBoardByName {
                account_id: account_id@,
                name: name@,
            },
            Request::UserHasAccess { account_id, board_id, user_id } => RequestView::UserHasAccess {
                account_id: account_id@,
                board_id: board_id@,
                user_id: user_id@,
            },
            Request::GetColumns { account_id, board_id } => RequestView::GetColumns {
                account_id: account_id@,
                board_id: board_id@,
            },
            Request::ListAccessibleBoards { account_id, user_id } => RequestView::ListAccessibleBoards {
                account_id: account_id@,
                user_id: user_id@,
            },
            Request::ListCards { account_id, filters } => RequestView::ListCards {
                account_id: account_id@,
                filters: filters@,
            },
            Request::CreateCard { account_id, card } => RequestView::CreateCard {
                account_id: account_id@,
                card: card@,
            },
            Request::UpdateCard { account_id, card_id, changes } => RequestView::UpdateCard {
                account_id: account_id@,
                card_id: card_id@,
                changes: changes@,
            },
            Request::CloseCard { account_id, card_id, user_id } => RequestView::CloseCard {
                account_id: account_id@,
                card_id: card_id@,
                user_id: user_id@,
            },
            Request::ReopenCard { account_id, card_id } => RequestView::ReopenCard {
                account_id: account_id@,
                card_id: card_id@,
            },
            Request::CreateComment { account_id, card_id, creator_id, content } => RequestView::CreateComment {
                account_id: account_id@,
                card_id: card_id@,
                creator_id: creator_id@,
                content: content@,
            },
            Request::EmitEvent { account_id, entry } => RequestView::EmitEvent {
                account_id: account_id@,
                entry: entry@,
            },
        }
    }
}

/// What a use case is told: that it may begin, or how the operation it
/// asked for went.
#[derive(Debug)]
pub enum Event {
    Started,
    CardFound(Result<Option<Card>, DomainError>),
    BoardFound(Result<Option<Board>, DomainError>),
    AccessChecked(Result<bool, DomainError>),
    ColumnsLoaded(Result<Vec<Column>, DomainError>),
    BoardsListed(Result<Vec<Board>, DomainError>),
    CardsListed(Result<Vec<Card>, DomainError>),
    CardWritten(Result<Card, DomainError>),
    StatusChanged(Result<(), DomainError>),
    CommentWritten(Result<Comment, DomainError>),
    EventEmitted(Result<(), DomainError>),
}

/// What an event holds, as plain values.
pub enum EventView {
    Started,
    CardFound(Result<Option<CardView>, DomainErrorView>),
    BoardFound(Result<Option<BoardView>, DomainErrorView>),
    AccessChecked(Result<bool, DomainErrorView>),
    ColumnsLoaded(Result<Seq<ColumnView>, DomainErrorView>),
    BoardsListed(Result<Seq<BoardView>, DomainErrorView>),
    CardsListed(Result<Seq<CardView>, DomainErrorView>),
    CardWritten(Result<CardView, DomainErrorView>),
    StatusChanged(Result<(), DomainErrorView>),
    CommentWritten(Result<CommentView, DomainErrorView>),
    EventEmitted(Result<(), DomainErrorView>),
}

impl View for Event {
    type V = EventView;

    open spec fn view(&self) -> EventView {
        match self {
            Event::Started => EventView::Started,
            Event::CardFound(r) => EventView::CardFound(
                match r {
                    Ok(Some(card)) => Ok(Some(card@)),
                    Ok(None) => Ok(None),
                    Err(e) => Err(e@),
                },
            ),
            Event::BoardFound(r) => EventView::BoardFound(
                match r {
                    Ok(Some(board)) => Ok(Some(board@)),
                    Ok(None) => Ok(None),
                    Err(e) => Err(e@),
                },
            ),
            Event::AccessChecked(r) => EventView::AccessChecked(
                match r {
                    Ok(allowed) => Ok(*allowed),
                    Err(e) => Err(e@),
                },
            ),
            Event::ColumnsLoaded(r) => EventView::ColumnsLoaded(
                match r {
                    Ok(columns) => Ok(column_views(columns@)),
                    Err(e) => Err(e@),
                },
            ),
            Event::BoardsListed(r) => EventView::BoardsListed(
                match r {
                    Ok(boards) => Ok(board_views(boards@)),
                    Err(e) => Err(e@),
                },
            ),
            Event::CardsListed(r) => EventView::CardsListed(
                match r {
                    Ok(cards) => Ok(card_views(cards@)),
                    Err(e) => Err(e@),
                },
            ),
            Event::CardWritten(r) => EventView::CardWritten(
                match r {
                    Ok(card) => Ok(card@),
                    Err(e) => Err(e@),
                },
            ),
            Event::StatusChanged(r) => EventView::StatusChanged(
                match r {
                    Ok(_) => Ok(()),
                    Err(e) => Err(e@),
                },
            ),
            Event::CommentWritten(r) => EventView::CommentWritten(
                match r {
                    Ok(comment) => Ok(comment@),
                    Err(e) => Err(e@),
                },
            ),
            Event::EventEmitted(r) => EventView::EventEmitted(
                match r {
                    Ok(_) => Ok(()),
                    Err(e) => Err(e@),
                },
            ),
        }
    }
}

/// What a use case does next: ask for a store operation, or end with its
/// result.
#[derive(Debug)]
pub enum Step<T> {
    Call(Request),
    Finish(Result<T, ApplicationError>),
}

/// What a step holds, as plain values; `V` stands for the result.
pub enum StepView<V> {
    Call(RequestView),
    Finish(Result<V, ApplicationErrorView>),
}

/// The failure of a use case that is told something it did not ask for,
/// or is driven on after it has ended.
pub open spec fn out_of_turn() -> ApplicationErrorView {
    ApplicationErrorView::InternalError("use case driven out of turn"@)
}

/// The failure of a use case that is driven out of turn.
pub fn out_of_turn_error() -> (r: ApplicationError)
    ensures
        r@ == out_of_turn(),
{
    ApplicationError::InternalError(String::from_str("use case driven out of turn"))
}

impl<T: View> View for Step<T> {
    type V = StepView<T::V>;

    open spec fn view(&self) -> StepView<T::V> {
        match self {
            Step::Call(request) => StepView::Call(request@),
            Step::Finish(Ok(value)) => StepView::Finish(Ok(value@)),
            Step::Finish(Err(e)) => StepView::Finish(Err(e@)),
        }
    }
}

/// The failure of a use case whose card does not exist.
pub open spec fn card_not_found(number: i64) -> ApplicationErrorView {
    ApplicationErrorView::NotFound("Card #"@ + decimal_text(number as int) + " not found"@)
}

/// The failure of a use case whose card does not exist.
pub fn card_not_found_error(number: i64) -> (r: ApplicationError)
    ensures
        r@ == card_not_found(number),
{
    let mut message = String::from_str("Card #");
    push_decimal(&mut message, number);
    message.append(" not found");
    ApplicationError::NotFound(message)
}

/// The failure of a use case whose actor may not use the board.
pub open spec fn no_access() -> ApplicationErrorView {
    ApplicationErrorView::Unauthorized("No access to this board"@)
}

/// The failure of a use case whose actor may not use the board.
pub fn no_access_error() -> (r: ApplicationError)
    ensures
        r@ == no_access(),
{
    ApplicationError::Unauthorized(String::from_str("No access to this board"))
}

/// The audit entry of something done to a card.
pub open spec fn card_event(
    board_id: Seq<char>,
    card_id: Seq<char>,
    creator_id: Seq<char>,
    action: Seq<char>,
    particulars: crate::domain::ports::event_repository::ParticularsView,
) -> CreateEventInputView {
    CreateEventInputView {
        board_id,
        eventable_id: card_id,
        eventable_type: "Card"@,
        creator_id,
        action,
        particulars,
    }
}

/// The audit entry of something done to a card.
pub fn make_card_event(
    board_id: &FizzyId,
    card_id: &FizzyId,
    creator_id: &FizzyId,
    action: &str,
    particulars: crate::domain::ports::event_repository::Particulars,
) -> (r: CreateEventInput)
    ensures
        r@ == card_event(board_id@, card_id@, creator_id@, action@, particulars@),
{
    CreateEventInput {
        board_id: board_id.clone(),
        eventable_id: card_id.clone(),
        eventable_type: String::from_str("Card"),
        creator_id: creator_id.clone(),
        action: String::from_str(action),
        particulars,
    }
}

/// How many cards a listing returns where its caller names no limit.
pub const DEFAULT_PAGE_SIZE: i64 = 20;

/// The statuses that a listing leaves out unless it is asked for them:
/// closed and postponed.
pub open spec fn terminal_statuses() -> Seq<crate::domain::value_objects::card_status::CardStatus> {
    seq![
        crate::domain::value_objects::card_status::CardStatus::Closed,
        crate::domain::value_objects::card_status::CardStatus::NotNow,
    ]
}

/// The statuses that a listing leaves out unless it is asked for them.
pub fn terminal_status_list() -> (r: Vec<crate::domain::value_objects::card_status::CardStatus>)
    ensures
        r@ == terminal_statuses(),
{
    let mut out = Vec::new();
    out.push(crate::domain::value_objects::card_status::CardStatus::Closed);
    out.push(crate::domain::value_objects::card_status::CardStatus::NotNow);
    assert(out@ =~= terminal_statuses());
    out
}

/// The limit of a listing: the caller's, or the default page size.
pub open spec fn page_size(limit: Option<i64>) -> Option<i64> {
    match limit {
        Some(n) => Some(n),
        None => Some(DEFAULT_PAGE_SIZE),
    }
}

/// The limit of a listing: the caller's, or the default page size.
pub fn page_size_of(limit: Option<i64>) -> (r: Option<i64>)
    ensures
        r == page_size(limit),
{
    match limit {
        Some(n) => Some(n),
        None => Some(DEFAULT_PAGE_SIZE),
    }
}

/// What a use case ended with, as plain values.
pub open spec fn finished<T: View>(r: Result<T, ApplicationError>) -> Result<
    T::V,
    ApplicationErrorView,
> {
    match r {
        Ok(value) => Ok(value@),
        Err(e) => Err(e@),
    }
}

} // verus!
