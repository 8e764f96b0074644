//! Listing the cards of a board.

use vstd::prelude::*;
use vstd::string::*;
use crate::application::errors::{ApplicationError, ApplicationErrorView};
use crate::application::use_cases::protocol::{
    no_access, no_access_error, out_of_turn, out_of_turn_error, page_size, page_size_of,
    terminal_status_list, terminal_statuses, Event, EventView, Request, RequestView, Step,
    StepView,
};
use crate::domain::entities::board::{Board, BoardView};
use crate::domain::entities::card::{card_views, Card, CardView};
use crate::domain::ports::card_repository::{CardFilters, CardFiltersView};
use crate::application::use_cases::protocol::finished;
use crate::domain::value_objects::fizzy_id::{encode, is_id_text, lemma_fixed_shape, FizzyId};
use crate::infrastructure::persistence::memory_model::StoreView;
use crate::infrastructure::persistence::memory_service::{performed, store_after};
use crate::infrastructure::persistence::memory_store::MemoryStore;

verus! {

/// Who lists the cards of which board, and how many at most.
#[derive(Debug)]
pub struct ListBoardCardsInput {
    pub account_id: FizzyId,
    pub user_id: FizzyId,
    pub board_name: String,
    pub limit: Option<i64>,
}

/// What the input holds, as plain values.
pub struct ListBoardCardsInputView {
    pub account_id: Seq<char>,
    pub user_id: Seq<char>,
    pub board_name: Seq<char>,
    pub limit: Option<i64>,
}

impl View for ListBoardCardsInput {
    type V = ListBoardCardsInputView;

    open spec fn view(&self) -> ListBoardCardsInputView {
        ListBoardCardsInputView {
            account_id: self.account_id@,
            user_id: self.user_id@,
            board_name: self.board_name@,
            limit: self.limit,
        }
    }
}

/// The cards that were found, and the name of the board as it is stored.
#[derive(Debug)]
pub struct ListBoardCardsOutput {
    pub cards: Vec<Card>,
    pub board_name: String,
}

/// What the output holds, as plain values.
pub struct ListBoardCardsOutputView {
    pub cards: Seq<CardView>,
    pub board_name: Seq<char>,
}

impl View for ListBoardCardsOutput {
    type V = ListBoardCardsOutputView;

    open spec fn view(&self) -> ListBoardCardsOutputView {
        ListBoardCardsOutputView { cards: card_views(self.cards@), board_name: self.board_name@ }
    }
}

/// How far the use case has come.
#[derive(Debug)]
pub enum ListBoardCardsStage {
    Ready,
    FindingBoard,
    CheckingAccess { board: Board },
    Listing { board: Board },
    Finished,
}

/// What a stage holds, as plain values.
pub enum ListBoardCardsStageView {
    Ready,
    FindingBoard,
    CheckingAccess { board: BoardView },
    Listing { board: BoardView },
    Finished,
}

impl View for ListBoardCardsStage {
    type V = ListBoardCardsStageView;

    open spec fn view(&self) -> ListBoardCardsStageView {
        match self {
            ListBoardCardsStage::Ready => ListBoardCardsStageView::Ready,
            ListBoardCardsStage::FindingBoard => ListBoardCardsStageView::FindingBoard,
            ListBoardCardsStage::CheckingAccess { board } => ListBoardCardsStageView::CheckingAccess {
                board: board@,
            },
            ListBoardCardsStage::Listing { board } => ListBoardCardsStageView::Listing {
                board: board@,
            },
            ListBoardCardsStage::Finished => ListBoardCardsStageView::Finished,
        }
    }
}

/// Lists the cards of a board: resolves the board by its name, makes sure
/// the actor may use it, and lists its cards without the closed and
/// postponed ones, 20 at most where no limit is given.
#[derive(Debug)]
pub struct ListBoardCardsUseCase {
    input: ListBoardCardsInput,
    stage: ListBoardCardsStage,
}

/// The failure of a listing whose board does not exist.
pub open spec fn board_not_found(name: Seq<char>) -> ApplicationErrorView {
    ApplicationErrorView::NotFound("Board '"@ + name + "' not found"@)
}

/// The filter of the listing.
pub open spec fn board_cards_filter(board_id: Seq<char>, limit: Option<i64>) -> CardFiltersView {
    CardFiltersView {
        board_id: Some(board_id),
        exclude_status: Some(terminal_statuses()),
        limit: page_size(limit),
        ..CardFiltersView::empty()
    }
}

impl ListBoardCardsUseCase {
    /// The input that the use case was made for.
    pub closed spec fn input(&self) -> ListBoardCardsInputView {
        self.input@
    }

    /// How far the use case has come.
    pub closed spec fn stage(&self) -> ListBoardCardsStageView {
        self.stage@
    }

    /// What the use case does at a stage when it is told of an event: the
    /// stage it goes to, and its next step.
    pub open spec fn next(
        input: ListBoardCardsInputView,
        stage: ListBoardCardsStageView,
        event: EventView,
    ) -> (ListBoardCardsStageView, StepView<ListBoardCardsOutputView>) {
        match (stage, event) {
            (ListBoardCardsStageView::Ready, EventView::Started) => (
                ListBoardCardsStageView::FindingBoard,
                StepView::Call(
                    RequestView::FindBoardByName {
                        account_id: input.account_id,
                        name: input.board_name,
                    },
                ),
            ),
            (ListBoardCardsStageView::FindingBoard, EventView::BoardFound(Err(e))) => (
                ListBoardCardsStageView::Finished,
                StepView::Finish(Err(ApplicationErrorView::DomainError(e))),
            ),
            (ListBoardCardsStageView::FindingBoard, EventView::BoardFound(Ok(None))) => (
                ListBoardCardsStageView::Finished,
                StepView::Finish(Err(board_not_found(input.board_name))),
            ),
            (ListBoardCardsStageView::FindingBoard, EventView::BoardFound(Ok(Some(board)))) => (
                ListBoardCardsStageView::CheckingAccess { board },
                StepView::Call(
                    RequestView::UserHasAccess {
                        account_id: input.account_id,
                        board_id: board.id,
                        user_id: input.user_id,
                    },
                ),
            ),
            (ListBoardCardsStageView::CheckingAccess { board }, EventView::AccessChecked(Err(e))) => (
                ListBoardCardsStageView::Finished,
                StepView::Finish(Err(ApplicationErrorView::DomainError(e))),
            ),
            (
                ListBoardCardsStageView::CheckingAccess { board },
                EventView::AccessChecked(Ok(allowed)),
            ) => if allowed {
                (
                    ListBoardCardsStageView::Listing { board },
                    StepView::Call(
                        RequestView::ListCards {
                            account_id: input.account_id,
                            filters: board_cards_filter(board.id, input.limit),
                        },
                    ),
                )
            } else {
                (ListBoardCardsStageView::Finished, StepView::Finish(Err(no_access())))
            },
            (ListBoardCardsStageView::Listing { board }, EventView::CardsListed(Err(e))) => (
                ListBoardCardsStageView::Finished,
                StepView::Finish(Err(ApplicationErrorView::DomainError(e))),
            ),
            (ListBoardCardsStageView::Listing { board }, EventView::CardsListed(Ok(cards))) => (
                ListBoardCardsStageView::Finished,
                StepView::Finish(Ok(ListBoardCardsOutputView { cards, board_name: board.name })),
            ),
            _ => (ListBoardCardsStageView::Finished, StepView::Finish(Err(out_of_turn()))),
        }
    }

    /// The use case for an input, ready to start.
    pub fn new(input: ListBoardCardsInput) -> (r: Self)
        ensures
            r.input() == input@,
            r.stage() == ListBoardCardsStageView::Ready,
    {
        ListBoardCardsUseCase { input, stage: ListBoardCardsStage::Ready }
    }

    /// Takes the use case one step on: from its stage and an event to its
    /// next stage and what it does next.
    pub fn advance(self, event: Event) -> (r: (Self, Step<ListBoardCardsOutput>))
        ensures
            r.0.input() == self.input(),
            (r.0.stage(), r.1@) == Self::next(self.input(), self.stage(), event@),
    {
        let input = self.input;
        match (self.stage, event) {
            (ListBoardCardsStage::Ready, Event::Started) => {
                let request = Request::FindBoardByName {
                    account_id: input.account_id.clone(),
                    name: input.board_name.clone(),
                };
                (
                    ListBoardCardsUseCase { input, stage: ListBoardCardsStage::FindingBoard },
                    Step::Call(request),
                )
            },
            (ListBoardCardsStage::FindingBoard, Event::BoardFound(Err(e))) => (
                ListBoardCardsUseCase { input, stage: ListBoardCardsStage::Finished },
                Step::Finish(Err(ApplicationError::DomainError(e))),
            ),
            (ListBoardCardsStage::FindingBoard, Event::BoardFound(Ok(None))) => {
                let mut message = String::from_str("Board '");
                message.append(input.board_name.as_str());
                message.append("' not found");
                (
                    ListBoardCardsUseCase { input, stage: ListBoardCardsStage::Finished },
                    Step::Finish(Err(ApplicationError::NotFound(message))),
                )
            },
            (ListBoardCardsStage::FindingBoard, Event::BoardFound(Ok(Some(board)))) => {
                let request = Request::UserHasAccess {
                    account_id: input.account_id.clone(),
                    board_id: board.id.clone(),
                    user_id: input.user_id.clone(),
                };
                (
                    ListBoardCardsUseCase {
                        input,
                        stage: ListBoardCardsStage::CheckingAccess { board },
                    },
                    Step::Call(request),
                )
            },
            (ListBoardCardsStage::CheckingAccess { board }, Event::AccessChecked(Err(e))) => (
                ListBoardCardsUseCase { input, stage: ListBoardCardsStage::Finished },
                Step::Finish(Err(ApplicationError::DomainError(e))),
            ),
            (ListBoardCardsStage::CheckingAccess { board }, Event::AccessChecked(Ok(allowed))) => {
                if allowed {
                    let filters = CardFilters {
                        assignee_id: None,
                        creator_id: None,
                        board_id: Some(board.id.clone()),
                        column_id: None,
                        status: None,
                        exclude_status: Some(terminal_status_list()),
                        is_golden: None,
                        limit: page_size_of(input.limit),
                        offset: None,
                    };
                    let request = Request::ListCards {
                        account_id: input.account_id.clone(),
                        filters,
                    };
                    (
                        ListBoardCardsUseCase { input, stage: ListBoardCardsStage::Listing { board } },
                        Step::Call(request),
                    )
                } else {
                    (
                        ListBoardCardsUseCase { input, stage: ListBoardCardsStage::Finished },
                        Step::Finish(Err(no_access_error())),
                    )
                }
            },
            (ListBoardCardsStage::Listing { board }, Event::CardsListed(Err(e))) => (
                ListBoardCardsUseCase { input, stage: ListBoardCardsStage::Finished },
                Step::Finish(Err(ApplicationError::DomainError(e))),
            ),
            (ListBoardCardsStage::Listing { board }, Event::CardsListed(Ok(cards))) => (
                ListBoardCardsUseCase { input, stage: ListBoardCardsStage::Finished },
                Step::Finish(Ok(ListBoardCardsOutput { cards, board_name: board.name })),
            ),
            _ => (
                ListBoardCardsUseCase { input, stage: ListBoardCardsStage::Finished },
                Step::Finish(Err(out_of_turn_error())),
            ),
        }
    }
}

impl ListBoardCardsUseCase {
    /// What listing a board's cards makes of a store: the store as it was,
    /// and the cards that the listing's filter selects, with the stored name
    /// of the board; `NotFound` for a board that does not exist and
    /// `Unauthorized` for an actor who may not use it.
    pub open spec fn outcome(store: StoreView, input: ListBoardCardsInputView) -> (
        StoreView,
        Result<ListBoardCardsOutputView, ApplicationErrorView>,
    ) {
        match store.board_by_name(input.account_id, input.board_name) {
            None => (store, Err(board_not_found(input.board_name))),
            Some(i) => {
                let board = store.boards[i];
                if !store.has_access(input.account_id, board.id, input.user_id) {
                    (store, Err(no_access()))
                } else {
                    (
                        store,
                        Ok(
                            ListBoardCardsOutputView {
                                cards: store.listed(
                                    input.account_id,
                                    board_cards_filter(board.id, input.limit),
                                ),
                                board_name: board.name,
                            },
                        ),
                    )
                }
            },
        }
    }

    /// Lists a board's cards from an in-memory store.
    pub fn execute(store: &mut MemoryStore, input: ListBoardCardsInput) -> (r: Result<ListBoardCardsOutput, ApplicationError>)
        requires
            old(store).wf(),
        ensures
            final(store).wf(),
            (final(store)@, finished(r)) == Self::outcome(old(store)@, input@),
    {
        let ghost before = store@;
        let ghost given = input@;
        let ghost any = encode(0);
        proof {
            lemma_fixed_shape(0, 25);
        }
        // the use case asks for three operations at most; each is performed by the
        // store, and the use case is told how it went
        let uc = Self::new(input);
        let (uc, step) = uc.advance(Event::Started);
        let request = match step {
            Step::Finish(r) => {
                assert((store@, finished(r)) == Self::outcome(before, given));
                return r;
            },
            Step::Call(request) => request,
        };
        let event = store.perform(request);
        let (uc, step) = uc.advance(event);
        let request = match step {
            Step::Finish(r) => {
                assert((store@, finished(r)) == Self::outcome(before, given));
                return r;
            },
            Step::Call(request) => request,
        };
        let event = store.perform(request);
        let (uc, step) = uc.advance(event);
        let request = match step {
            Step::Finish(r) => {
                assert((store@, finished(r)) == Self::outcome(before, given));
                return r;
            },
            Step::Call(request) => request,
        };
        let event = store.perform(request);
        let (uc, step) = uc.advance(event);
        match step {
            Step::Finish(r) => {
                assert((store@, finished(r)) == Self::outcome(before, given));
                r
            },
            Step::Call(_) => Err(out_of_turn_error()),
        }
    }
}

} // verus!
