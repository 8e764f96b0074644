//! Reading one card.

use vstd::prelude::*;
use crate::application::errors::{ApplicationError, ApplicationErrorView};
use crate::application::use_cases::protocol::{
    card_not_found, card_not_found_error, out_of_turn, out_of_turn_error, Event, EventView,
    Request, RequestView, Step, StepView,
};
use crate::domain::entities::card::{Card, CardView};
use crate::application::use_cases::protocol::finished;
use crate::domain::value_objects::fizzy_id::{encode, is_id_text, lemma_fixed_shape, FizzyId};
use crate::infrastructure::persistence::memory_model::StoreView;
use crate::infrastructure::persistence::memory_service::{performed, store_after};
use crate::infrastructure::persistence::memory_store::MemoryStore;

verus! {

/// Which card to read.
#[derive(Debug)]
pub struct GetCardDetailsInput {
    pub account_id: FizzyId,
    pub card_number: i64,
}

/// What the input holds, as plain values.
pub struct GetCardDetailsInputView {
    pub account_id: Seq<char>,
    pub card_number: i64,
}

impl View for GetCardDetailsInput {
    type V = GetCardDetailsInputView;

    open spec fn view(&self) -> GetCardDetailsInputView {
        GetCardDetailsInputView { account_id: self.account_id@, card_number: self.card_number }
    }
}

/// How far the use case has come.
#[derive(Debug, Clone, Copy, PartialEq, Eq, Structural)]
pub enum GetCardDetailsStage {
    Ready,
    FindingCard,
    Finished,
}

/// Reads a card by its number; a card that does not exist is `NotFound`.
#[derive(Debug)]
pub struct GetCardDetailsUseCase {
    input: GetCardDetailsInput,
    stage: GetCardDetailsStage,
}

impl GetCardDetailsUseCase {
    /// The input that the use case was made for.
    pub closed spec fn input(&self) -> GetCardDetailsInputView {
        self.input@
    }

    /// How far the use case has come.
    pub closed spec fn stage(&self) -> GetCardDetailsStage {
        self.stage
    }

    /// What the use case does at a stage when it is told of an event: the
    /// stage it goes to, and its next step.
    pub open spec fn next(
        input: GetCardDetailsInputView,
        stage: GetCardDetailsStage,
        event: EventView,
    ) -> (GetCardDetailsStage, StepView<CardView>) {
        match (stage, event) {
            (GetCardDetailsStage::Ready, EventView::Started) => (
                GetCardDetailsStage::FindingCard,
                StepView::Call(
                    RequestView::FindCardByNumber {
                        account_id: input.account_id,
                        number: input.card_number,
                    },
                ),
            ),
            (GetCardDetailsStage::FindingCard, EventView::CardFound(Err(e))) => (
                GetCardDetailsStage::Finished,
                StepView::Finish(Err(ApplicationErrorView::DomainError(e))),
            ),
            (GetCardDetailsStage::FindingCard, EventView::CardFound(Ok(None))) => (
                GetCardDetailsStage::Finished,
                StepView::Finish(Err(card_not_found(input.card_number))),
            ),
            (GetCardDetailsStage::FindingCard, EventView::CardFound(Ok(Some(card)))) => (
                GetCardDetailsStage::Finished,
                StepView::Finish(Ok(card)),
            ),
            _ => (GetCardDetailsStage::Finished, StepView::Finish(Err(out_of_turn()))),
        }
    }

    /// The use case for an input, ready to start.
    pub fn new(input: GetCardDetailsInput) -> (r: Self)
        ensures
            r.input() == input@,
            r.stage() == GetCardDetailsStage::Ready,
    {
        GetCardDetailsUseCase { input, stage: GetCardDetailsStage::Ready }
    }

    /// Takes the use case one step on: from its stage and an event to its
    /// next stage and what it does next.
    pub fn advance(self, event: Event) -> (r: (Self, Step<Card>))
        ensures
            r.0.input() == self.input(),
            (r.0.stage(), r.1@) == Self::next(self.input(), self.stage(), event@),
    {
        let input = self.input;
        match (self.stage, event) {
            (GetCardDetailsStage::Ready, Event::Started) => {
                let request = Request::FindCardByNumber {
                    account_id: input.account_id.clone(),
                    number: input.card_number,
                };
                (
                    GetCardDetailsUseCase { input, stage: GetCardDetailsStage::FindingCard },
                    Step::Call(request),
                )
            },
            (GetCardDetailsStage::FindingCard, Event::CardFound(Err(e))) => (
                GetCardDetailsUseCase { input, stage: GetCardDetailsStage::Finished },
                Step::Finish(Err(ApplicationError::DomainError(e))),
            ),
            (GetCardDetailsStage::FindingCard, Event::CardFound(Ok(None))) => {
                let e = card_not_found_error(input.card_number);
                (
                    GetCardDetailsUseCase { input, stage: GetCardDetailsStage::Finished },
                    Step::Finish(Err(e)),
                )
            },
            (GetCardDetailsStage::FindingCard, Event::CardFound(Ok(Some(card)))) => (
                GetCardDetailsUseCase { input, stage: GetCardDetailsStage::Finished },
                Step::Finish(Ok(card)),
            ),
            _ => (
                GetCardDetailsUseCase { input, stage: GetCardDetailsStage::Finished },
                Step::Finish(Err(out_of_turn_error())),
            ),
        }
    }
}

impl GetCardDetailsUseCase {
    /// What reading a card makes of a store: the store as it was, and the
    /// first card of the account with the number, or `NotFound`.
    pub open spec fn outcome(store: StoreView, input: GetCardDetailsInputView) -> (
        StoreView,
        Result<CardView, ApplicationErrorView>,
    ) {
        match store.card_by_number(input.account_id, input.card_number) {
            None => (store, Err(card_not_found(input.card_number))),
            Some(i) => (store, Ok(store.hydrated(store.cards[i]))),
        }
    }

    /// Reads a card from an in-memory store.
    pub fn execute(store: &mut MemoryStore, input: GetCardDetailsInput) -> (r: Result<Card, ApplicationError>)
        requires
            old(store).wf(),
        ensures
            final(store).wf(),
            (final(store)@, finished(r)) == Self::outcome(old(store)@, input@),
    {
        let ghost before = store@;
        let ghost given = input@;
        let ghost any = encode(0);
        proof {
            lemma_fixed_shape(0, 25);
        }
        // the use case asks for one operation at most; each is performed by the
        // store, and the use case is told how it went
        let uc = Self::new(input);
        let (uc, step) = uc.advance(Event::Started);
        let request = match step {
            Step::Finish(r) => {
                assert((store@, finished(r)) == Self::outcome(before, given));
                return r;
            },
            Step::Call(request) => request,
        };
        let event = store.perform(request);
        let (uc, step) = uc.advance(event);
        match step {
            Step::Finish(r) => {
                assert((store@, finished(r)) == Self::outcome(before, given));
                r
            },
            Step::Call(_) => Err(out_of_turn_error()),
        }
    }
}

} // verus!
