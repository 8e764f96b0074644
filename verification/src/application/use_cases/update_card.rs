//! Changing the title or the description of a card.

use vstd::prelude::*;
use vstd::string::*;
use crate::application::errors::{ApplicationError, ApplicationErrorView};
use crate::application::use_cases::protocol::{
    card_event, card_not_found, card_not_found_error, make_card_event, out_of_turn,
    out_of_turn_error, Event, EventView, Request, RequestView, Step, StepView,
};
use crate::domain::entities::card::{Card, CardView};
use crate::domain::ports::card_repository::{UpdateCardInput, UpdateCardInputView};
use crate::domain::ports::event_actions;
use crate::domain::ports::event_repository::{Particulars, ParticularsView};
use crate::application::use_cases::protocol::finished;
use crate::domain::value_objects::fizzy_id::{encode, is_id_text, lemma_fixed_shape, FizzyId};
use crate::infrastructure::persistence::memory_model::StoreView;
use crate::infrastructure::persistence::memory_service::{performed, store_after};
use crate::infrastructure::persistence::memory_store::MemoryStore;
use crate::text::{clone_opt_text, opt_text};

verus! {

/// Who changes which card, and to what; a field that is `None` is kept.
#[derive(Debug)]
pub struct UpdateCardUseCaseInput {
    pub account_id: FizzyId,
    pub user_id: FizzyId,
    pub card_number: i64,
    pub title: Option<String>,
    pub description: Option<String>,
}

/// What the input holds, as plain values.
pub struct UpdateCardUseCaseInputView {
    pub account_id: Seq<char>,
    pub user_id: Seq<char>,
    pub card_number: i64,
    pub title: Option<Seq<char>>,
    pub description: Option<Seq<char>>,
}

impl View for UpdateCardUseCaseInput {
    type V = UpdateCardUseCaseInputView;

    open spec fn view(&self) -> UpdateCardUseCaseInputView {
        UpdateCardUseCaseInputView {
            account_id: self.account_id@,
            user_id: self.user_id@,
            card_number: self.card_number,
            title: opt_text(self.title),
            description: opt_text(self.description),
        }
    }
}

/// How far the use case has come.
#[derive(Debug)]
pub enum UpdateCardStage {
    Ready,
    FindingCard,
    Updating { card: Card },
    Auditing { updated: Card },
    Finished,
}

/// What a stage holds, as plain values.
pub enum UpdateCardStageView {
    Ready,
    FindingCard,
    Updating { card: CardView },
    Auditing { updated: CardView },
    Finished,
}

impl View for UpdateCardStage {
    type V = UpdateCardStageView;

    open spec fn view(&self) -> UpdateCardStageView {
        match self {
            UpdateCardStage::Ready => UpdateCardStageView::Ready,
            UpdateCardStage::FindingCard => UpdateCardStageView::FindingCard,
            UpdateCardStage::Updating { card } => UpdateCardStageView::Updating { card: card@ },
            UpdateCardStage::Auditing { updated } => UpdateCardStageView::Auditing {
                updated: updated@,
            },
            UpdateCardStage::Finished => UpdateCardStageView::Finished,
        }
    }
}

/// Updates a card: resolves it by its number, has the fields that are
/// given changed, then has the audit trail told, whose answer changes
/// nothing.
#[derive(Debug)]
pub struct UpdateCardUseCase {
    input: UpdateCardUseCaseInput,
    stage: UpdateCardStage,
}

/// The update that the store is asked for: the title and the description
/// of the input, and nothing else.
pub open spec fn fields_to_update(input: UpdateCardUseCaseInputView) -> UpdateCardInputView {
    UpdateCardInputView {
        title: input.title,
        description: input.description,
        ..UpdateCardInputView::empty()
    }
}

impl UpdateCardUseCase {
    /// The input that the use case was made for.
    pub closed spec fn input(&self) -> UpdateCardUseCaseInputView {
        self.input@
    }

    /// How far the use case has come.
    pub closed spec fn stage(&self) -> UpdateCardStageView {
        self.stage@
    }

    /// What the use case does at a stage when it is told of an event: the
    /// stage it goes to, and its next step.
    pub open spec fn next(
        input: UpdateCardUseCaseInputView,
        stage: UpdateCardStageView,
        event: EventView,
    ) -> (UpdateCardStageView, StepView<CardView>) {
        match (stage, event) {
            (UpdateCardStageView::Ready, EventView::Started) => (
                UpdateCardStageView::FindingCard,
                StepView::Call(
                    RequestView::FindCardByNumber {
                        account_id: input.account_id,
                        number: input.card_number,
                    },
                ),
            ),
            (UpdateCardStageView::FindingCard, EventView::CardFound(Err(e))) => (
                UpdateCardStageView::Finished,
                StepView::Finish(Err(ApplicationErrorView::DomainError(e))),
            ),
            (UpdateCardStageView::FindingCard, EventView::CardFound(Ok(None))) => (
                UpdateCardStageView::Finished,
                StepView::Finish(Err(card_not_found(input.card_number))),
            ),
            (UpdateCardStageView::FindingCard, EventView::CardFound(Ok(Some(card)))) => (
                UpdateCardStageView::Updating { card },
                StepView::Call(
                    RequestView::UpdateCard {
                        account_id: input.account_id,
                        card_id: card.id,
                        changes: fields_to_update(input),
                    },
                ),
            ),
            (UpdateCardStageView::Updating { card }, EventView::CardWritten(Err(e))) => (
                UpdateCardStageView::Finished,
                StepView::Finish(Err(ApplicationErrorView::DomainError(e))),
            ),
            (UpdateCardStageView::Updating { card }, EventView::CardWritten(Ok(updated))) => (
                UpdateCardStageView::Auditing { updated },
                StepView::Call(
                    RequestView::EmitEvent {
                        account_id: input.account_id,
                        entry: card_event(
                            card.board_id,
                            card.id,
                            input.user_id,
                            event_actions::CARD_UPDATED@,
                            ParticularsView::Empty,
                        ),
                    },
                ),
            ),
            (UpdateCardStageView::Auditing { updated }, EventView::EventEmitted(_)) => (
                UpdateCardStageView::Finished,
                StepView::Finish(Ok(updated)),
            ),
            _ => (UpdateCardStageView::Finished, StepView::Finish(Err(out_of_turn()))),
        }
    }

    /// The use case for an input, ready to start.
    pub fn new(input: UpdateCardUseCaseInput) -> (r: Self)
        ensures
            r.input() == input@,
            r.stage() == UpdateCardStageView::Ready,
    {
        UpdateCardUseCase { input, stage: UpdateCardStage::Ready }
    }

    /// Takes the use case one step on: from its stage and an event to its
    /// next stage and what it does next.
    pub fn advance(self, event: Event) -> (r: (Self, Step<Card>))
        ensures
            r.0.input() == self.input(),
            (r.0.stage(), r.1@) == Self::next(self.input(), self.stage(), event@),
    {
        let input = self.input;
        match (self.stage, event) {
            (UpdateCardStage::Ready, Event::Started) => {
                let request = Request::FindCardByNumber {
                    account_id: input.account_id.clone(),
                    number: input.card_number,
                };
                (
                    UpdateCardUseCase { input, stage: UpdateCardStage::FindingCard },
                    Step::Call(request),
                )
            },
            (UpdateCardStage::FindingCard, Event::CardFound(Err(e))) => (
                UpdateCardUseCase { input, stage: UpdateCardStage::Finished },
                Step::Finish(Err(ApplicationError::DomainError(e))),
            ),
            (UpdateCardStage::FindingCard, Event::CardFound(Ok(None))) => {
                let e = card_not_found_error(input.card_number);
                (UpdateCardUseCase { input, stage: UpdateCardStage::Finished }, Step::Finish(Err(e)))
            },
            (UpdateCardStage::FindingCard, Event::CardFound(Ok(Some(card)))) => {
                let update = UpdateCardInput {
                    title: clone_opt_text(&input.title),
                    description: clone_opt_text(&input.description),
                    status: None,
                    column_id: None,
                    due_on: None,
                };
                let request = Request::UpdateCard {
                    account_id: input.account_id.clone(),
                    card_id: card.id.clone(),
                    changes: update,
                };
                (
                    UpdateCardUseCase { input, stage: UpdateCardStage::Updating { card } },
                    Step::Call(request),
                )
            },
            (UpdateCardStage::Updating { card }, Event::CardWritten(Err(e))) => (
                UpdateCardUseCase { input, stage: UpdateCardStage::Finished },
                Step::Finish(Err(ApplicationError::DomainError(e))),
            ),
            (UpdateCardStage::Updating { card }, Event::CardWritten(Ok(updated))) => {
                let entry = make_card_event(
                    &card.board_id,
                    &card.id,
                    &input.user_id,
                    event_actions::CARD_UPDATED,
                    Particulars::Empty,
                );
                let request = Request::EmitEvent {
                    account_id: input.account_id.clone(),
                    entry,
                };
                (
                    UpdateCardUseCase { input, stage: UpdateCardStage::Auditing { updated } },
                    Step::Call(request),
                )
            },
            (UpdateCardStage::Auditing { updated }, Event::EventEmitted(_)) => (
                UpdateCardUseCase { input, stage: UpdateCardStage::Finished },
                Step::Finish(Ok(updated)),
            ),
            _ => (
                UpdateCardUseCase { input, stage: UpdateCardStage::Finished },
                Step::Finish(Err(out_of_turn_error())),
            ),
        }
    }
}

impl UpdateCardUseCase {
    /// What updating a card makes of a store, where `event_id` is the
    /// identifier given to the audit event: the store afterwards, and the
    /// result.
    ///
    /// A card that does not exist fails before anything is written. The
    /// audit event is written where it can be; whether it was shows in the
    /// store only, never in the result.
    pub open spec fn outcome(
        store: StoreView,
        input: UpdateCardUseCaseInputView,
        event_id: Seq<char>,
    ) -> (StoreView, Result<CardView, ApplicationErrorView>) {
        match store.card_by_number(input.account_id, input.card_number) {
            None => (store, Err(card_not_found(input.card_number))),
            Some(i) => {
                let card = store.hydrated(store.cards[i]);
                match store.update_card(input.account_id, card.id, fields_to_update(input)) {
                    Err(e) => (store, Err(ApplicationErrorView::DomainError(e))),
                    Ok((written, updated)) => (
                        store_after(
                            written,
                            written.create_event(
                                input.account_id,
                                card_event(
                                    card.board_id,
                                    card.id,
                                    input.user_id,
                                    event_actions::CARD_UPDATED@,
                                    ParticularsView::Empty,
                                ),
                                event_id,
                            ),
                        ),
                        Ok(updated),
                    ),
                }
            },
        }
    }

    /// Updates a card in an in-memory store.
    pub fn execute(store: &mut MemoryStore, input: UpdateCardUseCaseInput) -> (r: Result<Card, ApplicationError>)
        requires
            old(store).wf(),
        ensures
            final(store).wf(),
            exists|event_id: Seq<char>|
                is_id_text(event_id) && (final(store)@, finished(r)) == #[trigger] Self::outcome(
                    old(store)@,
                    input@,
                    event_id,
                ),
    {
        let ghost before = store@;
        let ghost given = input@;
        let ghost any = encode(0);
        proof {
            lemma_fixed_shape(0, 25);
        }
        // the use case asks for three operations at most; each is performed by the
        // store, and the use case is told how it went
        let uc = Self::new(input);
        let (uc, step) = uc.advance(Event::Started);
        let request = match step {
            Step::Finish(r) => {
                assert((store@, finished(r)) == Self::outcome(before, given, any));
                return r;
            },
            Step::Call(request) => request,
        };
        let event = store.perform(request);
        let (uc, step) = uc.advance(event);
        let request = match step {
            Step::Finish(r) => {
                assert((store@, finished(r)) == Self::outcome(before, given, any));
                return r;
            },
            Step::Call(request) => request,
        };
        let event = store.perform(request);
        let (uc, step) = uc.advance(event);
        let request = match step {
            Step::Finish(r) => {
                assert((store@, finished(r)) == Self::outcome(before, given, any));
                return r;
            },
            Step::Call(request) => request,
        };
        let ghost asked = request@;
        let ghost held = store@;
        let event = store.perform(request);
        let ghost ids2 = choose|a: Seq<char>, b: Seq<char>|
            is_id_text(a) && is_id_text(b) && (store@, event@) == #[trigger] performed(held, asked, a, b);
        let (uc, step) = uc.advance(event);
        match step {
            Step::Finish(r) => {
                assert((store@, finished(r)) == Self::outcome(before, given, ids2.0));
                r
            },
            Step::Call(_) => Err(out_of_turn_error()),
        }
    }
}

} // verus!
