//! Reopening a card.

use vstd::prelude::*;
use vstd::string::*;
use crate::application::errors::{ApplicationError, ApplicationErrorView};
use crate::application::use_cases::protocol::{
    card_event, card_not_found, card_not_found_error, make_card_event, out_of_turn,
    out_of_turn_error, Event, EventView, Request, RequestView, Step, StepView,
};
use crate::domain::entities::card::{Card, CardView};
use crate::domain::ports::event_actions;
use crate::domain::ports::event_repository::{Particulars, ParticularsView};
use crate::application::use_cases::protocol::finished;
use crate::domain::value_objects::fizzy_id::{encode, is_id_text, lemma_fixed_shape, FizzyId};
use crate::infrastructure::persistence::memory_model::StoreView;
use crate::infrastructure::persistence::memory_service::{performed, store_after};
use crate::infrastructure::persistence::memory_store::MemoryStore;

verus! {

/// Who reopens which card.
#[derive(Debug)]
pub struct ReopenCardInput {
    pub account_id: FizzyId,
    pub user_id: FizzyId,
    pub card_number: i64,
}

/// What the input holds, as plain values.
pub struct ReopenCardInputView {
    pub account_id: Seq<char>,
    pub user_id: Seq<char>,
    pub card_number: i64,
}

impl View for ReopenCardInput {
    type V = ReopenCardInputView;

    open spec fn view(&self) -> ReopenCardInputView {
        ReopenCardInputView {
            account_id: self.account_id@,
            user_id: self.user_id@,
            card_number: self.card_number,
        }
    }
}

/// How far the use case has come.
#[derive(Debug)]
pub enum ReopenCardStage {
    Ready,
    FindingCard,
    Reopening { card: Card },
    Auditing,
    Finished,
}

/// What a stage holds, as plain values.
pub enum ReopenCardStageView {
    Ready,
    FindingCard,
    Reopening { card: CardView },
    Auditing,
    Finished,
}

impl View for ReopenCardStage {
    type V = ReopenCardStageView;

    open spec fn view(&self) -> ReopenCardStageView {
        match self {
            ReopenCardStage::Ready => ReopenCardStageView::Ready,
            ReopenCardStage::FindingCard => ReopenCardStageView::FindingCard,
            ReopenCardStage::Reopening { card } => ReopenCardStageView::Reopening { card: card@ },
            ReopenCardStage::Auditing => ReopenCardStageView::Auditing,
            ReopenCardStage::Finished => ReopenCardStageView::Finished,
        }
    }
}

/// Reopens a card: resolves it by its number, has its status set to the
/// active state, whatever it was before the card was closed, then
/// has the audit trail told, whose answer changes nothing.
#[derive(Debug)]
pub struct ReopenCardUseCase {
    input: ReopenCardInput,
    stage: ReopenCardStage,
}

impl ReopenCardUseCase {
    /// The input that the use case was made for.
    pub closed spec fn input(&self) -> ReopenCardInputView {
        self.input@
    }

    /// How far the use case has come.
    pub closed spec fn stage(&self) -> ReopenCardStageView {
        self.stage@
    }

    /// What the use case does at a stage when it is told of an event: the
    /// stage it goes to, and its next step.
    pub open spec fn next(input: ReopenCardInputView, stage: ReopenCardStageView, event: EventView) -> (
        ReopenCardStageView,
        StepView<()>,
    ) {
        match (stage, event) {
            (ReopenCardStageView::Ready, EventView::Started) => (
                ReopenCardStageView::FindingCard,
                StepView::Call(
                    RequestView::FindCardByNumber {
                        account_id: input.account_id,
                        number: input.card_number,
                    },
                ),
            ),
            (ReopenCardStageView::FindingCard, EventView::CardFound(Err(e))) => (
                ReopenCardStageView::Finished,
                StepView::Finish(Err(ApplicationErrorView::DomainError(e))),
            ),
            (ReopenCardStageView::FindingCard, EventView::CardFound(Ok(None))) => (
                ReopenCardStageView::Finished,
                StepView::Finish(Err(card_not_found(input.card_number))),
            ),
            (ReopenCardStageView::FindingCard, EventView::CardFound(Ok(Some(card)))) => (
                ReopenCardStageView::Reopening { card },
                StepView::Call(
                    RequestView::ReopenCard { account_id: input.account_id, card_id: card.id },
                ),
            ),
            (ReopenCardStageView::Reopening { card }, EventView::StatusChanged(Err(e))) => (
                ReopenCardStageView::Finished,
                StepView::Finish(Err(ApplicationErrorView::DomainError(e))),
            ),
            (ReopenCardStageView::Reopening { card }, EventView::StatusChanged(Ok(_))) => (
                ReopenCardStageView::Auditing,
                StepView::Call(
                    RequestView::EmitEvent {
                        account_id: input.account_id,
                        entry: card_event(
                            card.board_id,
                            card.id,
                            input.user_id,
                            event_actions::CARD_REOPENED@,
                            ParticularsView::Empty,
                        ),
                    },
                ),
            ),
            (ReopenCardStageView::Auditing, EventView::EventEmitted(_)) => (
                ReopenCardStageView::Finished,
                StepView::Finish(Ok(())),
            ),
            _ => (ReopenCardStageView::Finished, StepView::Finish(Err(out_of_turn()))),
        }
    }

    /// The use case for an input, ready to start.
    pub fn new(input: ReopenCardInput) -> (r: Self)
        ensures
            r.input() == input@,
            r.stage() == ReopenCardStageView::Ready,
    {
        ReopenCardUseCase { input, stage: ReopenCardStage::Ready }
    }

    /// Takes the use case one step on: from its stage and an event to its
    /// next stage and what it does next.
    pub fn advance(self, event: Event) -> (r: (Self, Step<()>))
        ensures
            r.0.input() == self.input(),
            (r.0.stage(), r.1@) == Self::next(self.input(), self.stage(), event@),
    {
        let input = self.input;
        match (self.stage, event) {
            (ReopenCardStage::Ready, Event::Started) => {
                let request = Request::FindCardByNumber {
                    account_id: input.account_id.clone(),
                    number: input.card_number,
                };
                (ReopenCardUseCase { input, stage: ReopenCardStage::FindingCard }, Step::Call(request))
            },
            (ReopenCardStage::FindingCard, Event::CardFound(Err(e))) => (
                ReopenCardUseCase { input, stage: ReopenCardStage::Finished },
                Step::Finish(Err(ApplicationError::DomainError(e))),
            ),
            (ReopenCardStage::FindingCard, Event::CardFound(Ok(None))) => {
                let e = card_not_found_error(input.card_number);
                (ReopenCardUseCase { input, stage: ReopenCardStage::Finished }, Step::Finish(Err(e)))
            },
            (ReopenCardStage::FindingCard, Event::CardFound(Ok(Some(card)))) => {
                let request = Request::ReopenCard {
                    account_id: input.account_id.clone(),
                    card_id: card.id.clone(),
                };
                (
                    ReopenCardUseCase { input, stage: ReopenCardStage::Reopening { card } },
                    Step::Call(request),
                )
            },
            (ReopenCardStage::Reopening { card }, Event::StatusChanged(Err(e))) => (
                ReopenCardUseCase { input, stage: ReopenCardStage::Finished },
                Step::Finish(Err(ApplicationError::DomainError(e))),
            ),
            (ReopenCardStage::Reopening { card }, Event::StatusChanged(Ok(_))) => {
                let entry = make_card_event(
                    &card.board_id,
                    &card.id,
                    &input.user_id,
                    event_actions::CARD_REOPENED,
                    Particulars::Empty,
                );
                let request = Request::EmitEvent {
                    account_id: input.account_id.clone(),
                    entry,
                };
                (ReopenCardUseCase { input, stage: ReopenCardStage::Auditing }, Step::Call(request))
            },
            (ReopenCardStage::Auditing, Event::EventEmitted(_)) => (
                ReopenCardUseCase { input, stage: ReopenCardStage::Finished },
                Step::Finish(Ok(())),
            ),
            _ => (
                ReopenCardUseCase { input, stage: ReopenCardStage::Finished },
                Step::Finish(Err(out_of_turn_error())),
            ),
        }
    }
}

impl ReopenCardUseCase {
    /// What reopening a card makes of a store, where `event_id` is the
    /// identifier given to the audit event: the store afterwards, and the
    /// result.
    ///
    /// A card that does not exist fails before anything is written. Only the
    /// status of the card changes. The audit event is written where it can
    /// be; whether it was shows in the store only, never in the result.
    pub open spec fn outcome(store: StoreView, input: ReopenCardInputView, event_id: Seq<char>) -> (
        StoreView,
        Result<(), ApplicationErrorView>,
    ) {
        match store.card_by_number(input.account_id, input.card_number) {
            None => (store, Err(card_not_found(input.card_number))),
            Some(i) => {
                let card = store.hydrated(store.cards[i]);
                match store.set_status(input.account_id, card.id, crate::domain::value_objects::card_status::CardStatus::Triaged) {
                    Err(e) => (store, Err(ApplicationErrorView::DomainError(e))),
                    Ok((written, _)) => (
                        store_after(
                            written,
                            written.create_event(
                                input.account_id,
                                card_event(
                                    card.board_id,
                                    card.id,
                                    input.user_id,
                                    event_actions::CARD_REOPENED@,
                                    ParticularsView::Empty,
                                ),
                                event_id,
                            ),
                        ),
                        Ok(()),
                    ),
                }
            },
        }
    }

    /// Reopens a card in an in-memory store.
    pub fn execute(store: &mut MemoryStore, input: ReopenCardInput) -> (r: Result<(), ApplicationError>)
        requires
            old(store).wf(),
        ensures
            final(store).wf(),
            exists|event_id: Seq<char>|
                is_id_text(event_id) && (final(store)@, finished(r)) == #[trigger] Self::outcome(
                    old(store)@,
                    input@,
                    event_id,
                ),
    {
        let ghost before = store@;
        let ghost given = input@;
        let ghost any = encode(0);
        proof {
            lemma_fixed_shape(0, 25);
        }
        // the use case asks for three operations at most; each is performed by the
        // store, and the use case is told how it went
        let uc = Self::new(input);
        let (uc, step) = uc.advance(Event::Started);
        let request = match step {
            Step::Finish(r) => {
                assert((store@, finished(r)) == Self::outcome(before, given, any));
                return r;
            },
            Step::Call(request) => request,
        };
        let event = store.perform(request);
        let (uc, step) = uc.advance(event);
        let request = match step {
            Step::Finish(r) => {
                assert((store@, finished(r)) == Self::outcome(before, given, any));
                return r;
            },
            Step::Call(request) => request,
        };
        let event = store.perform(request);
        let (uc, step) = uc.advance(event);
        let request = match step {
            Step::Finish(r) => {
                assert((store@, finished(r)) == Self::outcome(before, given, any));
                return r;
            },
            Step::Call(request) => request,
        };
        let ghost asked = request@;
        let ghost held = store@;
        let event = store.perform(request);
        let ghost ids2 = choose|a: Seq<char>, b: Seq<char>|
            is_id_text(a) && is_id_text(b) && (store@, event@) == #[trigger] performed(held, asked, a, b);
        let (uc, step) = uc.advance(event);
        match step {
            Step::Finish(r) => {
                assert((store@, finished(r)) == Self::outcome(before, given, ids2.0));
                r
            },
            Step::Call(_) => Err(out_of_turn_error()),
        }
    }
}

} // verus!
