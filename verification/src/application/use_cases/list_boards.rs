//! Listing the boards that a user may use.

use vstd::prelude::*;
use crate::application::errors::{ApplicationError, ApplicationErrorView};
use crate::application::use_cases::protocol::{
    out_of_turn, out_of_turn_error, Event, EventView, Request, RequestView, Step, StepView,
};
use crate::domain::entities::board::{board_views, Board, BoardView};
use crate::application::use_cases::protocol::finished;
use crate::domain::value_objects::fizzy_id::{encode, is_id_text, lemma_fixed_shape, FizzyId};
use crate::infrastructure::persistence::memory_model::StoreView;
use crate::infrastructure::persistence::memory_service::{performed, store_after};
use crate::infrastructure::persistence::memory_store::MemoryStore;

verus! {

/// Whose boards to list.
#[derive(Debug)]
pub struct ListBoardsInput {
    pub account_id: FizzyId,
    pub user_id: FizzyId,
}

/// What the input holds, as plain values.
pub struct ListBoardsInputView {
    pub account_id: Seq<char>,
    pub user_id: Seq<char>,
}

impl View for ListBoardsInput {
    type V = ListBoardsInputView;

    open spec fn view(&self) -> ListBoardsInputView {
        ListBoardsInputView { account_id: self.account_id@, user_id: self.user_id@ }
    }
}

/// The boards that were found.
#[derive(Debug)]
pub struct ListBoardsOutput {
    pub boards: Vec<Board>,
}

/// What the output holds, as plain values.
pub struct ListBoardsOutputView {
    pub boards: Seq<BoardView>,
}

impl View for ListBoardsOutput {
    type V = ListBoardsOutputView;

    open spec fn view(&self) -> ListBoardsOutputView {
        ListBoardsOutputView { boards: board_views(self.boards@) }
    }
}

/// How far the use case has come.
#[derive(Debug, Clone, Copy, PartialEq, Eq, Structural)]
pub enum ListBoardsStage {
    Ready,
    Listing,
    Finished,
}

/// Lists the boards of an account that a user may use.
#[derive(Debug)]
pub struct ListBoardsUseCase {
    input: ListBoardsInput,
    stage: ListBoardsStage,
}

impl ListBoardsUseCase {
    /// The input that the use case was made for.
    pub closed spec fn input(&self) -> ListBoardsInputView {
        self.input@
    }

    /// How far the use case has come.
    pub closed spec fn stage(&self) -> ListBoardsStage {
        self.stage
    }

    /// What the use case does at a stage when it is told of an event: the
    /// stage it goes to, and its next step.
    pub open spec fn next(input: ListBoardsInputView, stage: ListBoardsStage, event: EventView) -> (
        ListBoardsStage,
        StepView<ListBoardsOutputView>,
    ) {
        match (stage, event) {
            (ListBoardsStage::Ready, EventView::Started) => (
                ListBoardsStage::Listing,
                StepView::Call(
                    RequestView::ListAccessibleBoards {
                        account_id: input.account_id,
                        user_id: input.user_id,
                    },
                ),
            ),
            (ListBoardsStage::Listing, EventView::BoardsListed(Err(e))) => (
                ListBoardsStage::Finished,
                StepView::Finish(Err(ApplicationErrorView::DomainError(e))),
            ),
            (ListBoardsStage::Listing, EventView::BoardsListed(Ok(boards))) => (
                ListBoardsStage::Finished,
                StepView::Finish(Ok(ListBoardsOutputView { boards })),
            ),
            _ => (ListBoardsStage::Finished, StepView::Finish(Err(out_of_turn()))),
        }
    }

    /// The use case for an input, ready to start.
    pub fn new(input: ListBoardsInput) -> (r: Self)
        ensures
            r.input() == input@,
            r.stage() == ListBoardsStage::Ready,
    {
        ListBoardsUseCase { input, stage: ListBoardsStage::Ready }
    }

    /// Takes the use case one step on: from its stage and an event to its
    /// next stage and what it does next.
    pub fn advance(self, event: Event) -> (r: (Self, Step<ListBoardsOutput>))
        ensures
            r.0.input() == self.input(),
            (r.0.stage(), r.1@) == Self::next(self.input(), self.stage(), event@),
    {
        let input = self.input;
        match (self.stage, event) {
            (ListBoardsStage::Ready, Event::Started) => {
                let request = Request::ListAccessibleBoards {
                    account_id: input.account_id.clone(),
                    user_id: input.user_id.clone(),
                };
                (ListBoardsUseCase { input, stage: ListBoardsStage::Listing }, Step::Call(request))
            },
            (ListBoardsStage::Listing, Event::BoardsListed(Err(e))) => (
                ListBoardsUseCase { input, stage: ListBoardsStage::Finished },
                Step::Finish(Err(ApplicationError::DomainError(e))),
            ),
            (ListBoardsStage::Listing, Event::BoardsListed(Ok(boards))) => (
                ListBoardsUseCase { input, stage: ListBoardsStage::Finished },
                Step::Finish(Ok(ListBoardsOutput { boards })),
            ),
            _ => (
                ListBoardsUseCase { input, stage: ListBoardsStage::Finished },
                Step::Finish(Err(out_of_turn_error())),
            ),
        }
    }
}

impl ListBoardsUseCase {
    /// What listing boards makes of a store: the store as it was, and the
    /// boards of the account that the user may use, by name.
    pub open spec fn outcome(store: StoreView, input: ListBoardsInputView) -> (
        StoreView,
        Result<ListBoardsOutputView, ApplicationErrorView>,
    ) {
        (
            store,
            Ok(
                ListBoardsOutputView {
                    boards: store.accessible_boards(input.account_id, input.user_id),
                },
            ),
        )
    }

    /// Lists boards from an in-memory store.
    pub fn execute(store: &mut MemoryStore, input: ListBoardsInput) -> (r: Result<ListBoardsOutput, ApplicationError>)
        requires
            old(store).wf(),
        ensures
            final(store).wf(),
            (final(store)@, finished(r)) == Self::outcome(old(store)@, input@),
    {
        let ghost before = store@;
        let ghost given = input@;
        let ghost any = encode(0);
        proof {
            lemma_fixed_shape(0, 25);
        }
        // the use case asks for one operation at most; each is performed by the
        // store, and the use case is told how it went
        let uc = Self::new(input);
        let (uc, step) = uc.advance(Event::Started);
        let request = match step {
            Step::Finish(r) => {
                assert((store@, finished(r)) == Self::outcome(before, given));
                return r;
            },
            Step::Call(request) => request,
        };
        let event = store.perform(request);
        let (uc, step) = uc.advance(event);
        match step {
            Step::Finish(r) => {
                assert((store@, finished(r)) == Self::outcome(before, given));
                r
            },
            Step::Call(_) => Err(out_of_turn_error()),
        }
    }
}

} // verus!
