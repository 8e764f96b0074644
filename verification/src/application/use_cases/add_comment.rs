//! Adding a comment to a card.

use vstd::prelude::*;
use vstd::string::*;
use crate::application::errors::{ApplicationError, ApplicationErrorView};
use crate::application::use_cases::protocol::{
    card_not_found, card_not_found_error, out_of_turn, out_of_turn_error, Event, EventView,
    Request, RequestView, Step, StepView,
};
use crate::domain::entities::card::{Card, CardView};
use crate::domain::entities::comment::{Comment, CommentView};
use crate::domain::ports::event_actions;
use crate::domain::ports::event_repository::{
    CreateEventInput, CreateEventInputView, Particulars, ParticularsView,
};
use crate::application::use_cases::protocol::finished;
use crate::domain::value_objects::fizzy_id::{encode, is_id_text, lemma_fixed_shape, FizzyId};
use crate::infrastructure::persistence::memory_model::StoreView;
use crate::infrastructure::persistence::memory_service::{performed, store_after};
use crate::infrastructure::persistence::memory_store::MemoryStore;
use crate::text::{is_blank, is_blank_text};

verus! {

/// Who comments on which card, and with what.
#[derive(Debug)]
pub struct AddCommentInput {
    pub account_id: FizzyId,
    pub user_id: FizzyId,
    pub card_number: i64,
    pub content: String,
}

/// What the input holds, as plain values.
pub struct AddCommentInputView {
    pub account_id: Seq<char>,
    pub user_id: Seq<char>,
    pub card_number: i64,
    pub content: Seq<char>,
}

impl View for AddCommentInput {
    type V = AddCommentInputView;

    open spec fn view(&self) -> AddCommentInputView {
        AddCommentInputView {
            account_id: self.account_id@,
            user_id: self.user_id@,
            card_number: self.card_number,
            content: self.content@,
        }
    }
}

/// How far the use case has come.
#[derive(Debug)]
pub enum AddCommentStage {
    Ready,
    FindingCard,
    WritingComment { card: Card },
    Auditing { comment: Comment },
    Finished,
}

/// What a stage holds, as plain values.
pub enum AddCommentStageView {
    Ready,
    FindingCard,
    WritingComment { card: CardView },
    Auditing { comment: CommentView },
    Finished,
}

impl View for AddCommentStage {
    type V = AddCommentStageView;

    open spec fn view(&self) -> AddCommentStageView {
        match self {
            AddCommentStage::Ready => AddCommentStageView::Ready,
            AddCommentStage::FindingCard => AddCommentStageView::FindingCard,
            AddCommentStage::WritingComment { card } => AddCommentStageView::WritingComment {
                card: card@,
            },
            AddCommentStage::Auditing { comment } => AddCommentStageView::Auditing {
                comment: comment@,
            },
            AddCommentStage::Finished => AddCommentStageView::Finished,
        }
    }
}

/// Adds a comment: refuses empty content, resolves the card by its number,
/// writes the comment, then has the audit trail told, whose answer changes
/// nothing.
#[derive(Debug)]
pub struct AddCommentUseCase {
    input: AddCommentInput,
    stage: AddCommentStage,
}

/// The failure of a comment without content.
pub open spec fn empty_comment() -> ApplicationErrorView {
    ApplicationErrorView::InvalidInput("Comment cannot be empty"@)
}

/// The audit entry of a new comment: it is about the comment, on the
/// card's board, and names the card as its detail.
pub open spec fn comment_event(
    input: AddCommentInputView,
    card: CardView,
    comment: CommentView,
) -> CreateEventInputView {
    CreateEventInputView {
        board_id: card.board_id,
        eventable_id: comment.id,
        eventable_type: "Comment"@,
        creator_id: input.user_id,
        action: event_actions::COMMENT_CREATED@,
        particulars: ParticularsView::CardId(card.id),
    }
}

impl AddCommentUseCase {
    /// The input that the use case was made for.
    pub closed spec fn input(&self) -> AddCommentInputView {
        self.input@
    }

    /// How far the use case has come.
    pub closed spec fn stage(&self) -> AddCommentStageView {
        self.stage@
    }

    /// What the use case does at a stage when it is told of an event: the
    /// stage it goes to, and its next step.
    pub open spec fn next(
        input: AddCommentInputView,
        stage: AddCommentStageView,
        event: EventView,
    ) -> (AddCommentStageView, StepView<CommentView>) {
        match (stage, event) {
            (AddCommentStageView::Ready, EventView::Started) => if is_blank_text(input.content) {
                (AddCommentStageView::Finished, StepView::Finish(Err(empty_comment())))
            } else {
                (
                    AddCommentStageView::FindingCard,
                    StepView::Call(
                        RequestView::FindCardByNumber {
                            account_id: input.account_id,
                            number: input.card_number,
                        },
                    ),
                )
            },
            (AddCommentStageView::FindingCard, EventView::CardFound(Err(e))) => (
                AddCommentStageView::Finished,
                StepView::Finish(Err(ApplicationErrorView::DomainError(e))),
            ),
            (AddCommentStageView::FindingCard, EventView::CardFound(Ok(None))) => (
                AddCommentStageView::Finished,
                StepView::Finish(Err(card_not_found(input.card_number))),
            ),
            (AddCommentStageView::FindingCard, EventView::CardFound(Ok(Some(card)))) => (
                AddCommentStageView::WritingComment { card },
                StepView::Call(
                    RequestView::CreateComment {
                        account_id: input.account_id,
                        card_id: card.id,
                        creator_id: input.user_id,
                        content: input.content,
                    },
                ),
            ),
            (AddCommentStageView::WritingComment { card }, EventView::CommentWritten(Err(e))) => (
                AddCommentStageView::Finished,
                StepView::Finish(Err(ApplicationErrorView::DomainError(e))),
            ),
            (
                AddCommentStageView::WritingComment { card },
                EventView::CommentWritten(Ok(comment)),
            ) => (
                AddCommentStageView::Auditing { comment },
                StepView::Call(
                    RequestView::EmitEvent {
                        account_id: input.account_id,
                        entry: comment_event(input, card, comment),
                    },
                ),
            ),
            (AddCommentStageView::Auditing { comment }, EventView::EventEmitted(_)) => (
                AddCommentStageView::Finished,
                StepView::Finish(Ok(comment)),
            ),
            _ => (AddCommentStageView::Finished, StepView::Finish(Err(out_of_turn()))),
        }
    }

    /// The use case for an input, ready to start.
    pub fn new(input: AddCommentInput) -> (r: Self)
        ensures
            r.input() == input@,
            r.stage() == AddCommentStageView::Ready,
    {
        AddCommentUseCase { input, stage: AddCommentStage::Ready }
    }

    /// Takes the use case one step on: from its stage and an event to its
    /// next stage and what it does next.
    pub fn advance(self, event: Event) -> (r: (Self, Step<Comment>))
        ensures
            r.0.input() == self.input(),
            (r.0.stage(), r.1@) == Self::next(self.input(), self.stage(), event@),
    {
        let input = self.input;
        match (self.stage, event) {
            (AddCommentStage::Ready, Event::Started) => {
                if is_blank(input.content.as_str()) {
                    let e = ApplicationError::InvalidInput(
                        String::from_str("Comment cannot be empty"),
                    );
                    (
                        AddCommentUseCase { input, stage: AddCommentStage::Finished },
                        Step::Finish(Err(e)),
                    )
                } else {
                    let request = Request::FindCardByNumber {
                        account_id: input.account_id.clone(),
                        number: input.card_number,
                    };
                    (
                        AddCommentUseCase { input, stage: AddCommentStage::FindingCard },
                        Step::Call(request),
                    )
                }
            },
            (AddCommentStage::FindingCard, Event::CardFound(Err(e))) => (
                AddCommentUseCase { input, stage: AddCommentStage::Finished },
                Step::Finish(Err(ApplicationError::DomainError(e))),
            ),
            (AddCommentStage::FindingCard, Event::CardFound(Ok(None))) => {
                let e = card_not_found_error(input.card_number);
                (
                    AddCommentUseCase { input, stage: AddCommentStage::Finished },
                    Step::Finish(Err(e)),
                )
            },
            (AddCommentStage::FindingCard, Event::CardFound(Ok(Some(card)))) => {
                let request = Request::CreateComment {
                    account_id: input.account_id.clone(),
                    card_id: card.id.clone(),
                    creator_id: input.user_id.clone(),
                    content: input.content.clone(),
                };
                (
                    AddCommentUseCase { input, stage: AddCommentStage::WritingComment { card } },
                    Step::Call(request),
                )
            },
            (AddCommentStage::WritingComment { card }, Event::CommentWritten(Err(e))) => (
                AddCommentUseCase { input, stage: AddCommentStage::Finished },
                Step::Finish(Err(ApplicationError::DomainError(e))),
            ),
            (AddCommentStage::WritingComment { card }, Event::CommentWritten(Ok(comment))) => {
                let entry = CreateEventInput {
                    board_id: card.board_id.clone(),
                    eventable_id: comment.id.clone(),
                    eventable_type: String::from_str("Comment"),
                    creator_id: input.user_id.clone(),
                    action: String::from_str(event_actions::COMMENT_CREATED),
                    particulars: Particulars::CardId(card.id.clone()),
                };
                let request = Request::EmitEvent {
                    account_id: input.account_id.clone(),
                    entry,
                };
                (
                    AddCommentUseCase { input, stage: AddCommentStage::Auditing { comment } },
                    Step::Call(request),
                )
            },
            (AddCommentStage::Auditing { comment }, Event::EventEmitted(_)) => (
                AddCommentUseCase { input, stage: AddCommentStage::Finished },
                Step::Finish(Ok(comment)),
            ),
            _ => (
                AddCommentUseCase { input, stage: AddCommentStage::Finished },
                Step::Finish(Err(out_of_turn_error())),
            ),
        }
    }
}

impl AddCommentUseCase {
    /// What adding a comment makes of a store, where `comment_id`,
    /// `content_id` and `event_id` are the identifiers given to what is
    /// written: the store afterwards, and the result.
    ///
    /// Empty content and a card that does not exist fail before anything is
    /// written. The audit event is written where it can be; whether it was
    /// shows in the store only, never in the result.
    pub open spec fn outcome(
        store: StoreView,
        input: AddCommentInputView,
        comment_id: Seq<char>,
        content_id: Seq<char>,
        event_id: Seq<char>,
    ) -> (StoreView, Result<CommentView, ApplicationErrorView>) {
        if is_blank_text(input.content) {
            (store, Err(empty_comment()))
        } else {
            match store.card_by_number(input.account_id, input.card_number) {
                None => (store, Err(card_not_found(input.card_number))),
                Some(i) => {
                    let card = store.hydrated(store.cards[i]);
                    match store.create_comment(
                        input.account_id,
                        card.id,
                        input.user_id,
                        input.content,
                        comment_id,
                        content_id,
                    ) {
                        Err(e) => (store, Err(ApplicationErrorView::DomainError(e))),
                        Ok((written, comment)) => (
                            store_after(
                                written,
                                written.create_event(
                                    input.account_id,
                                    comment_event(input, card, comment),
                                    event_id,
                                ),
                            ),
                            Ok(comment),
                        ),
                    }
                },
            }
        }
    }

    /// Adds a comment in an in-memory store.
    pub fn execute(store: &mut MemoryStore, input: AddCommentInput) -> (r: Result<
        Comment,
        ApplicationError,
    >)
        requires
            old(store).wf(),
        ensures
            final(store).wf(),
            exists|comment_id: Seq<char>, content_id: Seq<char>, event_id: Seq<char>|
                is_id_text(comment_id) && is_id_text(content_id) && is_id_text(event_id) && (
                    final(store)@,
                    finished(r),
                ) == #[trigger] Self::outcome(old(store)@, input@, comment_id, content_id, event_id),
    {
        let ghost before = store@;
        let ghost given = input@;
        let ghost any = encode(0);
        proof {
            lemma_fixed_shape(0, 25);
        }
        // the use case asks for three operations at most; each is performed by the
        // store, and the use case is told how it went
        let uc = Self::new(input);
        let (uc, step) = uc.advance(Event::Started);
        let request = match step {
            Step::Finish(r) => {
                assert((store@, finished(r)) == Self::outcome(before, given, any, any, any));
                return r;
            },
            Step::Call(request) => request,
        };
        let event = store.perform(request);
        let (uc, step) = uc.advance(event);
        let request = match step {
            Step::Finish(r) => {
                assert((store@, finished(r)) == Self::outcome(before, given, any, any, any));
                return r;
            },
            Step::Call(request) => request,
        };
        let ghost asked = request@;
        let event = store.perform(request);
        let ghost ids = choose|a: Seq<char>, b: Seq<char>|
            is_id_text(a) && is_id_text(b) && (store@, event@) == #[trigger] performed(
                before,
                asked,
                a,
                b,
            );
        let ghost written = store@;
        let (uc, step) = uc.advance(event);
        let request = match step {
            Step::Finish(r) => {
                assert((store@, finished(r)) == Self::outcome(before, given, ids.0, ids.1, any));
                return r;
            },
            Step::Call(request) => request,
        };
        let ghost asked = request@;
        let event = store.perform(request);
        let ghost last = choose|a: Seq<char>, b: Seq<char>|
            is_id_text(a) && is_id_text(b) && (store@, event@) == #[trigger] performed(
                written,
                asked,
                a,
                b,
            );
        let (uc, step) = uc.advance(event);
        match step {
            Step::Finish(r) => {
                assert((store@, finished(r)) == Self::outcome(
                    before,
                    given,
                    ids.0,
                    ids.1,
                    last.0,
                ));
                r
            },
            Step::Call(_) => Err(out_of_turn_error()),
        }
    }
}

} // verus!
