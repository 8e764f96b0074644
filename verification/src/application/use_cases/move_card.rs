//! Moving a card to a column of its board.

use vstd::prelude::*;
use vstd::string::*;
use crate::application::errors::{ApplicationError, ApplicationErrorView};
use crate::application::use_cases::protocol::{
    card_event, card_not_found, card_not_found_error, make_card_event, out_of_turn,
    out_of_turn_error, Event, EventView, Request, RequestView, Step, StepView,
};
use crate::domain::entities::card::{Card, CardView};
use crate::domain::entities::column::{column_views, Column, ColumnView};
use crate::domain::ports::card_repository::{UpdateCardInput, UpdateCardInputView};
use crate::domain::ports::event_actions;
use crate::domain::ports::event_repository::{Particulars, ParticularsView};
use crate::domain::value_objects::card_status::CardStatus;
use crate::application::use_cases::protocol::finished;
use crate::domain::value_objects::fizzy_id::{encode, is_id_text, lemma_fixed_shape, FizzyId};
use crate::infrastructure::persistence::memory_model::StoreView;
use crate::infrastructure::persistence::memory_service::{performed, store_after};
use crate::infrastructure::persistence::memory_store::MemoryStore;

verus! {

/// Who moves which card to which column.
#[derive(Debug)]
pub struct MoveCardInput {
    pub account_id: FizzyId,
    pub user_id: FizzyId,
    pub card_number: i64,
    pub column_id: FizzyId,
}

/// What the input holds, as plain values.
pub struct MoveCardInputView {
    pub account_id: Seq<char>,
    pub user_id: Seq<char>,
    pub card_number: i64,
    pub column_id: Seq<char>,
}

impl View for MoveCardInput {
    type V = MoveCardInputView;

    open spec fn view(&self) -> MoveCardInputView {
        MoveCardInputView {
            account_id: self.account_id@,
            user_id: self.user_id@,
            card_number: self.card_number,
            column_id: self.column_id@,
        }
    }
}

/// How far the use case has come.
#[derive(Debug)]
pub enum MoveCardStage {
    Ready,
    FindingCard,
    LoadingColumns { card: Card },
    Updating { card: Card },
    Auditing { updated: Card },
    Finished,
}

/// What a stage holds, as plain values.
pub enum MoveCardStageView {
    Ready,
    FindingCard,
    LoadingColumns { card: CardView },
    Updating { card: CardView },
    Auditing { updated: CardView },
    Finished,
}

impl View for MoveCardStage {
    type V = MoveCardStageView;

    open spec fn view(&self) -> MoveCardStageView {
        match self {
            MoveCardStage::Ready => MoveCardStageView::Ready,
            MoveCardStage::FindingCard => MoveCardStageView::FindingCard,
            MoveCardStage::LoadingColumns { card } => MoveCardStageView::LoadingColumns {
                card: card@,
            },
            MoveCardStage::Updating { card } => MoveCardStageView::Updating { card: card@ },
            MoveCardStage::Auditing { updated } => MoveCardStageView::Auditing {
                updated: updated@,
            },
            MoveCardStage::Finished => MoveCardStageView::Finished,
        }
    }
}

/// Moves a card: resolves it by its number, makes sure the column is one
/// of the card's board, has the card put in the column and made active,
/// then has the audit trail told, whose answer changes nothing.
#[derive(Debug)]
pub struct MoveCardUseCase {
    input: MoveCardInput,
    stage: MoveCardStage,
}

/// The failure of a move to a column of another board.
pub open spec fn foreign_column() -> ApplicationErrorView {
    ApplicationErrorView::InvalidInput("Column not in this board"@)
}

/// Whether a column is among some columns.
pub open spec fn is_column_of(columns: Seq<ColumnView>, column_id: Seq<char>) -> bool {
    exists|i: int| 0 <= i < columns.len() && (#[trigger] columns[i]).id == column_id
}

/// The update that a move asks for: the column, and the active status.
pub open spec fn move_update(column_id: Seq<char>) -> UpdateCardInputView {
    UpdateCardInputView {
        column_id: Some(column_id),
        status: Some(CardStatus::Triaged),
        ..UpdateCardInputView::empty()
    }
}

/// Whether a column is among some columns.
fn has_column(columns: &Vec<Column>, column_id: &FizzyId) -> (r: bool)
    ensures
        r == is_column_of(column_views(columns@), column_id@),
{
    let mut i: usize = 0;
    while i < columns.len()
        invariant
            i <= columns.len(),
            forall|j: int| 0 <= j < i ==> (#[trigger] column_views(columns@)[j]).id != column_id@,
        decreases columns.len() - i,
    {
        if columns[i].id == *column_id {
            assert(column_views(columns@)[i as int].id == column_id@);
            return true;
        }
        i += 1;
    }
    false
}

impl MoveCardUseCase {
    /// The input that the use case was made for.
    pub closed spec fn input(&self) -> MoveCardInputView {
        self.input@
    }

    /// How far the use case has come.
    pub closed spec fn stage(&self) -> MoveCardStageView {
        self.stage@
    }

    /// What the use case does at a stage when it is told of an event: the
    /// stage it goes to, and its next step.
    pub open spec fn next(input: MoveCardInputView, stage: MoveCardStageView, event: EventView) -> (
        MoveCardStageView,
        StepView<CardView>,
    ) {
        match (stage, event) {
            (MoveCardStageView::Ready, EventView::Started) => (
                MoveCardStageView::FindingCard,
                StepView::Call(
                    RequestView::FindCardByNumber {
                        account_id: input.account_id,
                        number: input.card_number,
                    },
                ),
            ),
            (MoveCardStageView::FindingCard, EventView::CardFound(Err(e))) => (
                MoveCardStageView::Finished,
                StepView::Finish(Err(ApplicationErrorView::DomainError(e))),
            ),
            (MoveCardStageView::FindingCard, EventView::CardFound(Ok(None))) => (
                MoveCardStageView::Finished,
                StepView::Finish(Err(card_not_found(input.card_number))),
            ),
            (MoveCardStageView::FindingCard, EventView::CardFound(Ok(Some(card)))) => (
                MoveCardStageView::LoadingColumns { card },
                StepView::Call(
                    RequestView::GetColumns {
                        account_id: input.account_id,
                        board_id: card.board_id,
                    },
                ),
            ),
            (MoveCardStageView::LoadingColumns { card }, EventView::ColumnsLoaded(Err(e))) => (
                MoveCardStageView::Finished,
                StepView::Finish(Err(ApplicationErrorView::DomainError(e))),
            ),
            (MoveCardStageView::LoadingColumns { card }, EventView::ColumnsLoaded(Ok(columns))) => if is_column_of(
                columns,
                input.column_id,
            ) {
                (
                    MoveCardStageView::Updating { card },
                    StepView::Call(
                        RequestView::UpdateCard {
                            account_id: input.account_id,
                            card_id: card.id,
                            changes: move_update(input.column_id),
                        },
                    ),
                )
            } else {
                (MoveCardStageView::Finished, StepView::Finish(Err(foreign_column())))
            },
            (MoveCardStageView::Updating { card }, EventView::CardWritten(Err(e))) => (
                MoveCardStageView::Finished,
                StepView::Finish(Err(ApplicationErrorView::DomainError(e))),
            ),
            (MoveCardStageView::Updating { card }, EventView::CardWritten(Ok(updated))) => (
                MoveCardStageView::Auditing { updated },
                StepView::Call(
                    RequestView::EmitEvent {
                        account_id: input.account_id,
                        entry: card_event(
                            card.board_id,
                            card.id,
                            input.user_id,
                            event_actions::CARD_COLUMN_CHANGED@,
                            ParticularsView::ColumnId(input.column_id),
                        ),
                    },
                ),
            ),
            (MoveCardStageView::Auditing { updated }, EventView::EventEmitted(_)) => (
                MoveCardStageView::Finished,
                StepView::Finish(Ok(updated)),
            ),
            _ => (MoveCardStageView::Finished, StepView::Finish(Err(out_of_turn()))),
        }
    }

    /// The use case for an input, ready to start.
    pub fn new(input: MoveCardInput) -> (r: Self)
        ensures
            r.input() == input@,
            r.stage() == MoveCardStageView::Ready,
    {
        MoveCardUseCase { input, stage: MoveCardStage::Ready }
    }

    /// Takes the use case one step on: from its stage and an event to its
    /// next stage and what it does next.
    pub fn advance(self, event: Event) -> (r: (Self, Step<Card>))
        ensures
            r.0.input() == self.input(),
            (r.0.stage(), r.1@) == Self::next(self.input(), self.stage(), event@),
    {
        let input = self.input;
        match (self.stage, event) {
            (MoveCardStage::Ready, Event::Started) => {
                let request = Request::FindCardByNumber {
                    account_id: input.account_id.clone(),
                    number: input.card_number,
                };
                (MoveCardUseCase { input, stage: MoveCardStage::FindingCard }, Step::Call(request))
            },
            (MoveCardStage::FindingCard, Event::CardFound(Err(e))) => (
                MoveCardUseCase { input, stage: MoveCardStage::Finished },
                Step::Finish(Err(ApplicationError::DomainError(e))),
            ),
            (MoveCardStage::FindingCard, Event::CardFound(Ok(None))) => {
                let e = card_not_found_error(input.card_number);
                (MoveCardUseCase { input, stage: MoveCardStage::Finished }, Step::Finish(Err(e)))
            },
            (MoveCardStage::FindingCard, Event::CardFound(Ok(Some(card)))) => {
                let request = Request::GetColumns {
                    account_id: input.account_id.clone(),
                    board_id: card.board_id.clone(),
                };
                (
                    MoveCardUseCase { input, stage: MoveCardStage::LoadingColumns { card } },
                    Step::Call(request),
                )
            },
            (MoveCardStage::LoadingColumns { card }, Event::ColumnsLoaded(Err(e))) => (
                MoveCardUseCase { input, stage: MoveCardStage::Finished },
                Step::Finish(Err(ApplicationError::DomainError(e))),
            ),
            (MoveCardStage::LoadingColumns { card }, Event::ColumnsLoaded(Ok(columns))) => {
                if has_column(&columns, &input.column_id) {
                    let update = UpdateCardInput {
                        title: None,
                        description: None,
                        status: Some(CardStatus::Triaged),
                        column_id: Some(input.column_id.clone()),
                        due_on: None,
                    };
                    let request = Request::UpdateCard {
                        account_id: input.account_id.clone(),
                        card_id: card.id.clone(),
                        changes: update,
                    };
                    (
                        MoveCardUseCase { input, stage: MoveCardStage::Updating { card } },
                        Step::Call(request),
                    )
                } else {
                    let e = ApplicationError::InvalidInput(
                        String::from_str("Column not in this board"),
                    );
                    (MoveCardUseCase { input, stage: MoveCardStage::Finished }, Step::Finish(Err(e)))
                }
            },
            (MoveCardStage::Updating { card }, Event::CardWritten(Err(e))) => (
                MoveCardUseCase { input, stage: MoveCardStage::Finished },
                Step::Finish(Err(ApplicationError::DomainError(e))),
            ),
            (MoveCardStage::Updating { card }, Event::CardWritten(Ok(updated))) => {
                let entry = make_card_event(
                    &card.board_id,
                    &card.id,
                    &input.user_id,
                    event_actions::CARD_COLUMN_CHANGED,
                    Particulars::ColumnId(input.column_id.clone()),
                );
                let request = Request::EmitEvent {
                    account_id: input.account_id.clone(),
                    entry,
                };
                (
                    MoveCardUseCase { input, stage: MoveCardStage::Auditing { updated } },
                    Step::Call(request),
                )
            },
            (MoveCardStage::Auditing { updated }, Event::EventEmitted(_)) => (
                MoveCardUseCase { input, stage: MoveCardStage::Finished },
                Step::Finish(Ok(updated)),
            ),
            _ => (
                MoveCardUseCase { input, stage: MoveCardStage::Finished },
                Step::Finish(Err(out_of_turn_error())),
            ),
        }
    }
}

impl MoveCardUseCase {
    /// What moving a card makes of a store, where `event_id` is the
    /// identifier given to the audit event: the store afterwards, and the
    /// result.
    ///
    /// A card that does not exist, and a column that is not one of the
    /// card's board, fail before anything is written. The audit event is
    /// written where it can be; whether it was shows in the store only, never
    /// in the result.
    pub open spec fn outcome(store: StoreView, input: MoveCardInputView, event_id: Seq<char>) -> (
        StoreView,
        Result<CardView, ApplicationErrorView>,
    ) {
        match store.card_by_number(input.account_id, input.card_number) {
            None => (store, Err(card_not_found(input.card_number))),
            Some(i) => {
                let card = store.hydrated(store.cards[i]);
                if !is_column_of(store.columns_of(input.account_id, card.board_id), input.column_id) {
                    (store, Err(foreign_column()))
                } else {
                    match store.update_card(input.account_id, card.id, move_update(input.column_id)) {
                        Err(e) => (store, Err(ApplicationErrorView::DomainError(e))),
                        Ok((written, updated)) => (
                            store_after(
                                written,
                                written.create_event(
                                    input.account_id,
                                    card_event(
                                        card.board_id,
                                        card.id,
                                        input.user_id,
                                        event_actions::CARD_COLUMN_CHANGED@,
                                        ParticularsView::ColumnId(input.column_id),
                                    ),
                                    event_id,
                                ),
                            ),
                            Ok(updated),
                        ),
                    }
                }
            },
        }
    }

    /// Moves a card in an in-memory store.
    pub fn execute(store: &mut MemoryStore, input: MoveCardInput) -> (r: Result<Card, ApplicationError>)
        requires
            old(store).wf(),
        ensures
            final(store).wf(),
            exists|event_id: Seq<char>|
                is_id_text(event_id) && (final(store)@, finished(r)) == #[trigger] Self::outcome(
                    old(store)@,
                    input@,
                    event_id,
                ),
    {
        let ghost before = store@;
        let ghost given = input@;
        let ghost any = encode(0);
        proof {
            lemma_fixed_shape(0, 25);
        }
        // the use case asks for four operations at most; each is performed by the
        // store, and the use case is told how it went
        let uc = Self::new(input);
        let (uc, step) = uc.advance(Event::Started);
        let request = match step {
            Step::Finish(r) => {
                assert((store@, finished(r)) == Self::outcome(before, given, any));
                return r;
            },
            Step::Call(request) => request,
        };
        let event = store.perform(request);
        let (uc, step) = uc.advance(event);
        let request = match step {
            Step::Finish(r) => {
                assert((store@, finished(r)) == Self::outcome(before, given, any));
                return r;
            },
            Step::Call(request) => request,
        };
        let event = store.perform(request);
        let (uc, step) = uc.advance(event);
        let request = match step {
            Step::Finish(r) => {
                assert((store@, finished(r)) == Self::outcome(before, given, any));
                return r;
            },
            Step::Call(request) => request,
        };
        let event = store.perform(request);
        let (uc, step) = uc.advance(event);
        let request = match step {
            Step::Finish(r) => {
                assert((store@, finished(r)) == Self::outcome(before, given, any));
                return r;
            },
            Step::Call(request) => request,
        };
        let ghost asked = request@;
        let ghost held = store@;
        let event = store.perform(request);
        let ghost ids3 = choose|a: Seq<char>, b: Seq<char>|
            is_id_text(a) && is_id_text(b) && (store@, event@) == #[trigger] performed(held, asked, a, b);
        let (uc, step) = uc.advance(event);
        match step {
            Step::Finish(r) => {
                assert((store@, finished(r)) == Self::outcome(before, given, ids3.0));
                r
            },
            Step::Call(_) => Err(out_of_turn_error()),
        }
    }
}

} // verus!
