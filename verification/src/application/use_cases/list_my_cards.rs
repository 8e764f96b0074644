//! Listing the cards that are assigned to a user.

use vstd::prelude::*;
use crate::application::errors::{ApplicationError, ApplicationErrorView};
use crate::application::use_cases::protocol::{
    out_of_turn, out_of_turn_error, page_size, page_size_of, terminal_status_list,
    terminal_statuses, Event, EventView, Request, RequestView, Step, StepView,
};
use crate::domain::entities::card::{card_views, Card, CardView};
use crate::domain::ports::card_repository::{CardFilters, CardFiltersView};
use crate::application::use_cases::protocol::finished;
use crate::domain::value_objects::fizzy_id::{encode, is_id_text, lemma_fixed_shape, FizzyId};
use crate::infrastructure::persistence::memory_model::StoreView;
use crate::infrastructure::persistence::memory_service::{performed, store_after};
use crate::infrastructure::persistence::memory_store::MemoryStore;

verus! {

/// Whose cards to list, whether closed and postponed ones too, and how
/// many at most.
#[derive(Debug)]
pub struct ListMyCardsInput {
    pub account_id: FizzyId,
    pub user_id: FizzyId,
    pub include_closed: bool,
    pub limit: Option<i64>,
}

/// What the input holds, as plain values.
pub struct ListMyCardsInputView {
    pub account_id: Seq<char>,
    pub user_id: Seq<char>,
    pub include_closed: bool,
    pub limit: Option<i64>,
}

impl View for ListMyCardsInput {
    type V = ListMyCardsInputView;

    open spec fn view(&self) -> ListMyCardsInputView {
        ListMyCardsInputView {
            account_id: self.account_id@,
            user_id: self.user_id@,
            include_closed: self.include_closed,
            limit: self.limit,
        }
    }
}

/// The cards that were found.
#[derive(Debug)]
pub struct ListMyCardsOutput {
    pub cards: Vec<Card>,
}

/// What the output holds, as plain values.
pub struct ListMyCardsOutputView {
    pub cards: Seq<CardView>,
}

impl View for ListMyCardsOutput {
    type V = ListMyCardsOutputView;

    open spec fn view(&self) -> ListMyCardsOutputView {
        ListMyCardsOutputView { cards: card_views(self.cards@) }
    }
}

/// How far the use case has come.
#[derive(Debug, Clone, Copy, PartialEq, Eq, Structural)]
pub enum ListMyCardsStage {
    Ready,
    Listing,
    Finished,
}

/// Lists the cards assigned to a user: without the closed and postponed
/// ones unless they are asked for, and 20 at most where no limit is given.
#[derive(Debug)]
pub struct ListMyCardsUseCase {
    input: ListMyCardsInput,
    stage: ListMyCardsStage,
}

/// The filter of the listing.
pub open spec fn my_cards_filter(input: ListMyCardsInputView) -> CardFiltersView {
    CardFiltersView {
        assignee_id: Some(input.user_id),
        exclude_status: if input.include_closed {
            None
        } else {
            Some(terminal_statuses())
        },
        limit: page_size(input.limit),
        ..CardFiltersView::empty()
    }
}

impl ListMyCardsUseCase {
    /// The input that the use case was made for.
    pub closed spec fn input(&self) -> ListMyCardsInputView {
        self.input@
    }

    /// How far the use case has come.
    pub closed spec fn stage(&self) -> ListMyCardsStage {
        self.stage
    }

    /// What the use case does at a stage when it is told of an event: the
    /// stage it goes to, and its next step.
    pub open spec fn next(input: ListMyCardsInputView, stage: ListMyCardsStage, event: EventView) -> (
        ListMyCardsStage,
        StepView<ListMyCardsOutputView>,
    ) {
        match (stage, event) {
            (ListMyCardsStage::Ready, EventView::Started) => (
                ListMyCardsStage::Listing,
                StepView::Call(
                    RequestView::ListCards {
                        account_id: input.account_id,
                        filters: my_cards_filter(input),
                    },
                ),
            ),
            (ListMyCardsStage::Listing, EventView::CardsListed(Err(e))) => (
                ListMyCardsStage::Finished,
                StepView::Finish(Err(ApplicationErrorView::DomainError(e))),
            ),
            (ListMyCardsStage::Listing, EventView::CardsListed(Ok(cards))) => (
                ListMyCardsStage::Finished,
                StepView::Finish(Ok(ListMyCardsOutputView { cards })),
            ),
            _ => (ListMyCardsStage::Finished, StepView::Finish(Err(out_of_turn()))),
        }
    }

    /// The use case for an input, ready to start.
    pub fn new(input: ListMyCardsInput) -> (r: Self)
        ensures
            r.input() == input@,
            r.stage() == ListMyCardsStage::Ready,
    {
        ListMyCardsUseCase { input, stage: ListMyCardsStage::Ready }
    }

    /// Takes the use case one step on: from its stage and an event to its
    /// next stage and what it does next.
    pub fn advance(self, event: Event) -> (r: (Self, Step<ListMyCardsOutput>))
        ensures
            r.0.input() == self.input(),
            (r.0.stage(), r.1@) == Self::next(self.input(), self.stage(), event@),
    {
        let input = self.input;
        match (self.stage, event) {
            (ListMyCardsStage::Ready, Event::Started) => {
                let filters = CardFilters {
                    assignee_id: Some(input.user_id.clone()),
                    creator_id: None,
                    board_id: None,
                    column_id: None,
                    status: None,
                    exclude_status: if input.include_closed {
                        None
                    } else {
                        Some(terminal_status_list())
                    },
                    is_golden: None,
                    limit: page_size_of(input.limit),
                    offset: None,
                };
                let request = Request::ListCards { account_id: input.account_id.clone(), filters };
                (ListMyCardsUseCase { input, stage: ListMyCardsStage::Listing }, Step::Call(request))
            },
            (ListMyCardsStage::Listing, Event::CardsListed(Err(e))) => (
                ListMyCardsUseCase { input, stage: ListMyCardsStage::Finished },
                Step::Finish(Err(ApplicationError::DomainError(e))),
            ),
            (ListMyCardsStage::Listing, Event::CardsListed(Ok(cards))) => (
                ListMyCardsUseCase { input, stage: ListMyCardsStage::Finished },
                Step::Finish(Ok(ListMyCardsOutput { cards })),
            ),
            _ => (
                ListMyCardsUseCase { input, stage: ListMyCardsStage::Finished },
                Step::Finish(Err(out_of_turn_error())),
            ),
        }
    }
}

impl ListMyCardsUseCase {
    /// What listing a user's cards makes of a store: the store as it was,
    /// and the cards that the listing's filter selects.
    pub open spec fn outcome(store: StoreView, input: ListMyCardsInputView) -> (
        StoreView,
        Result<ListMyCardsOutputView, ApplicationErrorView>,
    ) {
        (
            store,
            Ok(ListMyCardsOutputView { cards: store.listed(input.account_id, my_cards_filter(input)) }),
        )
    }

    /// Lists a user's cards from an in-memory store.
    pub fn execute(store: &mut MemoryStore, input: ListMyCardsInput) -> (r: Result<ListMyCardsOutput, ApplicationError>)
        requires
            old(store).wf(),
        ensures
            final(store).wf(),
            (final(store)@, finished(r)) == Self::outcome(old(store)@, input@),
    {
        let ghost before = store@;
        let ghost given = input@;
        let ghost any = encode(0);
        proof {
            lemma_fixed_shape(0, 25);
        }
        // the use case asks for one operation at most; each is performed by the
        // store, and the use case is told how it went
        let uc = Self::new(input);
        let (uc, step) = uc.advance(Event::Started);
        let request = match step {
            Step::Finish(r) => {
                assert((store@, finished(r)) == Self::outcome(before, given));
                return r;
            },
            Step::Call(request) => request,
        };
        let event = store.perform(request);
        let (uc, step) = uc.advance(event);
        match step {
            Step::Finish(r) => {
                assert((store@, finished(r)) == Self::outcome(before, given));
                r
            },
            Step::Call(_) => Err(out_of_turn_error()),
        }
    }
}

} // verus!
