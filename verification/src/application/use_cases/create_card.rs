//! Creating a card on a board.

use vstd::prelude::*;
use vstd::string::*;
use crate::application::errors::{ApplicationError, ApplicationErrorView};
use crate::application::use_cases::protocol::{
    card_event, make_card_event, no_access, no_access_error, out_of_turn, out_of_turn_error, Event,
    EventView, Request, RequestView, Step, StepView,
};
use crate::domain::entities::card::{Card, CardView};
use crate::domain::entities::column::{Column, ColumnView};
use crate::domain::ports::card_repository::{CreateCardInput, CreateCardInputView};
use crate::domain::ports::event_actions;
use crate::domain::ports::event_repository::{Particulars, ParticularsView};
use crate::domain::value_objects::card_status::CardStatus;
use crate::application::use_cases::protocol::finished;
use crate::domain::value_objects::fizzy_id::{encode, is_id_text, lemma_fixed_shape, FizzyId};
use crate::infrastructure::persistence::memory_model::StoreView;
use crate::infrastructure::persistence::memory_service::{performed, store_after};
use crate::infrastructure::persistence::memory_store::MemoryStore;
use crate::text::{clone_opt_text, opt_text};

verus! {

/// Who creates what card on which board.
#[derive(Debug)]
pub struct CreateCardUseCaseInput {
    pub account_id: FizzyId,
    pub user_id: FizzyId,
    pub board_id: FizzyId,
    pub title: String,
    pub description: Option<String>,
}

/// What the input holds, as plain values.
pub struct CreateCardUseCaseInputView {
    pub account_id: Seq<char>,
    pub user_id: Seq<char>,
    pub board_id: Seq<char>,
    pub title: Seq<char>,
    pub description: Option<Seq<char>>,
}

impl View for CreateCardUseCaseInput {
    type V = CreateCardUseCaseInputView;

    open spec fn view(&self) -> CreateCardUseCaseInputView {
        CreateCardUseCaseInputView {
            account_id: self.account_id@,
            user_id: self.user_id@,
            board_id: self.board_id@,
            title: self.title@,
            description: opt_text(self.description),
        }
    }
}

/// How far the use case has come.
#[derive(Debug)]
pub enum CreateCardStage {
    Ready,
    CheckingAccess,
    LoadingColumns,
    Creating,
    Auditing { card: Card },
    Finished,
}

/// What a stage holds, as plain values.
pub enum CreateCardStageView {
    Ready,
    CheckingAccess,
    LoadingColumns,
    Creating,
    Auditing { card: CardView },
    Finished,
}

impl View for CreateCardStage {
    type V = CreateCardStageView;

    open spec fn view(&self) -> CreateCardStageView {
        match self {
            CreateCardStage::Ready => CreateCardStageView::Ready,
            CreateCardStage::CheckingAccess => CreateCardStageView::CheckingAccess,
            CreateCardStage::LoadingColumns => CreateCardStageView::LoadingColumns,
            CreateCardStage::Creating => CreateCardStageView::Creating,
            CreateCardStage::Auditing { card } => CreateCardStageView::Auditing { card: card@ },
            CreateCardStage::Finished => CreateCardStageView::Finished,
        }
    }
}

/// Creates a card: makes sure the actor may use the board, loads the
/// board's columns, has the card created, then has the audit trail told,
/// whose answer changes nothing.
///
/// A board with columns gets the card in its first column, published; a
/// board without gets it drafted, in no column.
#[derive(Debug)]
pub struct CreateCardUseCase {
    input: CreateCardUseCaseInput,
    stage: CreateCardStage,
}

/// What the store is asked to create, given the columns of the board.
pub open spec fn card_to_create(
    input: CreateCardUseCaseInputView,
    columns: Seq<ColumnView>,
) -> CreateCardInputView {
    CreateCardInputView {
        board_id: input.board_id,
        creator_id: input.user_id,
        title: input.title,
        description: input.description,
        status: if columns.len() > 0 {
            CardStatus::Published
        } else {
            CardStatus::Drafted
        },
        column_id: if columns.len() > 0 {
            Some(columns[0].id)
        } else {
            None
        },
    }
}

impl CreateCardUseCase {
    /// The input that the use case was made for.
    pub closed spec fn input(&self) -> CreateCardUseCaseInputView {
        self.input@
    }

    /// How far the use case has come.
    pub closed spec fn stage(&self) -> CreateCardStageView {
        self.stage@
    }

    /// What the use case does at a stage when it is told of an event: the
    /// stage it goes to, and its next step.
    pub open spec fn next(
        input: CreateCardUseCaseInputView,
        stage: CreateCardStageView,
        event: EventView,
    ) -> (CreateCardStageView, StepView<CardView>) {
        match (stage, event) {
            (CreateCardStageView::Ready, EventView::Started) => (
                CreateCardStageView::CheckingAccess,
                StepView::Call(
                    RequestView::UserHasAccess {
                        account_id: input.account_id,
                        board_id: input.board_id,
                        user_id: input.user_id,
                    },
                ),
            ),
            (CreateCardStageView::CheckingAccess, EventView::AccessChecked(Err(e))) => (
                CreateCardStageView::Finished,
                StepView::Finish(Err(ApplicationErrorView::DomainError(e))),
            ),
            (CreateCardStageView::CheckingAccess, EventView::AccessChecked(Ok(allowed))) => if allowed {
                (
                    CreateCardStageView::LoadingColumns,
                    StepView::Call(
                        RequestView::GetColumns {
                            account_id: input.account_id,
                            board_id: input.board_id,
                        },
                    ),
                )
            } else {
                (CreateCardStageView::Finished, StepView::Finish(Err(no_access())))
            },
            (CreateCardStageView::LoadingColumns, EventView::ColumnsLoaded(Err(e))) => (
                CreateCardStageView::Finished,
                StepView::Finish(Err(ApplicationErrorView::DomainError(e))),
            ),
            (CreateCardStageView::LoadingColumns, EventView::ColumnsLoaded(Ok(columns))) => (
                CreateCardStageView::Creating,
                StepView::Call(
                    RequestView::CreateCard {
                        account_id: input.account_id,
                        card: card_to_create(input, columns),
                    },
                ),
            ),
            (CreateCardStageView::Creating, EventView::CardWritten(Err(e))) => (
                CreateCardStageView::Finished,
                StepView::Finish(Err(ApplicationErrorView::DomainError(e))),
            ),
            (CreateCardStageView::Creating, EventView::CardWritten(Ok(card))) => (
                CreateCardStageView::Auditing { card },
                StepView::Call(
                    RequestView::EmitEvent {
                        account_id: input.account_id,
                        entry: card_event(
                            input.board_id,
                            card.id,
                            input.user_id,
                            event_actions::CARD_CREATED@,
                            ParticularsView::Empty,
                        ),
                    },
                ),
            ),
            (CreateCardStageView::Auditing { card }, EventView::EventEmitted(_)) => (
                CreateCardStageView::Finished,
                StepView::Finish(Ok(card)),
            ),
            _ => (CreateCardStageView::Finished, StepView::Finish(Err(out_of_turn()))),
        }
    }

    /// The use case for an input, ready to start.
    pub fn new(input: CreateCardUseCaseInput) -> (r: Self)
        ensures
            r.input() == input@,
            r.stage() == CreateCardStageView::Ready,
    {
        CreateCardUseCase { input, stage: CreateCardStage::Ready }
    }

    /// Takes the use case one step on: from its stage and an event to its
    /// next stage and what it does next.
    pub fn advance(self, event: Event) -> (r: (Self, Step<Card>))
        ensures
            r.0.input() == self.input(),
            (r.0.stage(), r.1@) == Self::next(self.input(), self.stage(), event@),
    {
        let input = self.input;
        match (self.stage, event) {
            (CreateCardStage::Ready, Event::Started) => {
                let request = Request::UserHasAccess {
                    account_id: input.account_id.clone(),
                    board_id: input.board_id.clone(),
                    user_id: input.user_id.clone(),
                };
                (
                    CreateCardUseCase { input, stage: CreateCardStage::CheckingAccess },
                    Step::Call(request),
                )
            },
            (CreateCardStage::CheckingAccess, Event::AccessChecked(Err(e))) => (
                CreateCardUseCase { input, stage: CreateCardStage::Finished },
                Step::Finish(Err(ApplicationError::DomainError(e))),
            ),
            (CreateCardStage::CheckingAccess, Event::AccessChecked(Ok(allowed))) => {
                if allowed {
                    let request = Request::GetColumns {
                        account_id: input.account_id.clone(),
                        board_id: input.board_id.clone(),
                    };
                    (
                        CreateCardUseCase { input, stage: CreateCardStage::LoadingColumns },
                        Step::Call(request),
                    )
                } else {
                    (
                        CreateCardUseCase { input, stage: CreateCardStage::Finished },
                        Step::Finish(Err(no_access_error())),
                    )
                }
            },
            (CreateCardStage::LoadingColumns, Event::ColumnsLoaded(Err(e))) => (
                CreateCardUseCase { input, stage: CreateCardStage::Finished },
                Step::Finish(Err(ApplicationError::DomainError(e))),
            ),
            (CreateCardStage::LoadingColumns, Event::ColumnsLoaded(Ok(columns))) => {
                let first = if columns.len() > 0 {
                    Some(columns[0].id.clone())
                } else {
                    None
                };
                let status = if columns.len() > 0 {
                    CardStatus::Published
                } else {
                    CardStatus::Drafted
                };
                let create = CreateCardInput {
                    board_id: input.board_id.clone(),
                    creator_id: input.user_id.clone(),
                    title: input.title.clone(),
                    description: clone_opt_text(&input.description),
                    status,
                    column_id: first,
                };
                let request = Request::CreateCard {
                    account_id: input.account_id.clone(),
                    card: create,
                };
                (CreateCardUseCase { input, stage: CreateCardStage::Creating }, Step::Call(request))
            },
            (CreateCardStage::Creating, Event::CardWritten(Err(e))) => (
                CreateCardUseCase { input, stage: CreateCardStage::Finished },
                Step::Finish(Err(ApplicationError::DomainError(e))),
            ),
            (CreateCardStage::Creating, Event::CardWritten(Ok(card))) => {
                let entry = make_card_event(
                    &input.board_id,
                    &card.id,
                    &input.user_id,
                    event_actions::CARD_CREATED,
                    Particulars::Empty,
                );
                let request = Request::EmitEvent {
                    account_id: input.account_id.clone(),
                    entry,
                };
                (
                    CreateCardUseCase { input, stage: CreateCardStage::Auditing { card } },
                    Step::Call(request),
                )
            },
            (CreateCardStage::Auditing { card }, Event::EventEmitted(_)) => (
                CreateCardUseCase { input, stage: CreateCardStage::Finished },
                Step::Finish(Ok(card)),
            ),
            _ => (
                CreateCardUseCase { input, stage: CreateCardStage::Finished },
                Step::Finish(Err(out_of_turn_error())),
            ),
        }
    }
}

impl CreateCardUseCase {
    /// What creating a card makes of a store, where `card_id` and
    /// `event_id` are the identifiers given to what is written: the store
    /// afterwards, and the result.
    ///
    /// An actor who may not use the board fails before anything is written.
    /// The audit event is written where it can be; whether it was shows in
    /// the store only, never in the result.
    pub open spec fn outcome(
        store: StoreView,
        input: CreateCardUseCaseInputView,
        card_id: Seq<char>,
        event_id: Seq<char>,
    ) -> (StoreView, Result<CardView, ApplicationErrorView>) {
        if !store.has_access(input.account_id, input.board_id, input.user_id) {
            (store, Err(no_access()))
        } else {
            let columns = store.columns_of(input.account_id, input.board_id);
            match store.create_card(input.account_id, card_to_create(input, columns), card_id) {
                Err(e) => (store, Err(ApplicationErrorView::DomainError(e))),
                Ok((written, card)) => (
                    store_after(
                        written,
                        written.create_event(
                            input.account_id,
                            card_event(
                                input.board_id,
                                card.id,
                                input.user_id,
                                event_actions::CARD_CREATED@,
                                ParticularsView::Empty,
                            ),
                            event_id,
                        ),
                    ),
                    Ok(card),
                ),
            }
        }
    }

    /// Creates a card in an in-memory store.
    pub fn execute(store: &mut MemoryStore, input: CreateCardUseCaseInput) -> (r: Result<Card, ApplicationError>)
        requires
            old(store).wf(),
        ensures
            final(store).wf(),
            exists|card_id: Seq<char>, event_id: Seq<char>|
                is_id_text(card_id) && is_id_text(event_id) && (final(store)@, finished(r)) == #[trigger] Self::outcome(
                    old(store)@,
                    input@,
                    card_id,
                    event_id,
                ),
    {
        let ghost before = store@;
        let ghost given = input@;
        let ghost any = encode(0);
        proof {
            lemma_fixed_shape(0, 25);
        }
        // the use case asks for four operations at most; each is performed by the
        // store, and the use case is told how it went
        let uc = Self::new(input);
        let (uc, step) = uc.advance(Event::Started);
        let request = match step {
            Step::Finish(r) => {
                assert((store@, finished(r)) == Self::outcome(before, given, any, any));
                return r;
            },
            Step::Call(request) => request,
        };
        let event = store.perform(request);
        let (uc, step) = uc.advance(event);
        let request = match step {
            Step::Finish(r) => {
                assert((store@, finished(r)) == Self::outcome(before, given, any, any));
                return r;
            },
            Step::Call(request) => request,
        };
        let event = store.perform(request);
        let (uc, step) = uc.advance(event);
        let request = match step {
            Step::Finish(r) => {
                assert((store@, finished(r)) == Self::outcome(before, given, any, any));
                return r;
            },
            Step::Call(request) => request,
        };
        let ghost asked = request@;
        let ghost held = store@;
        let event = store.perform(request);
        let ghost ids2 = choose|a: Seq<char>, b: Seq<char>|
            is_id_text(a) && is_id_text(b) && (store@, event@) == #[trigger] performed(held, asked, a, b);
        let (uc, step) = uc.advance(event);
        let request = match step {
            Step::Finish(r) => {
                assert((store@, finished(r)) == Self::outcome(before, given, ids2.0, any));
                return r;
            },
            Step::Call(request) => request,
        };
        let ghost asked = request@;
        let ghost held = store@;
        let event = store.perform(request);
        let ghost ids3 = choose|a: Seq<char>, b: Seq<char>|
            is_id_text(a) && is_id_text(b) && (store@, event@) == #[trigger] performed(held, asked, a, b);
        let (uc, step) = uc.advance(event);
        match step {
            Step::Finish(r) => {
                assert((store@, finished(r)) == Self::outcome(before, given, ids2.0, ids3.0));
                r
            },
            Step::Call(_) => Err(out_of_turn_error()),
        }
    }
}

} // verus!
