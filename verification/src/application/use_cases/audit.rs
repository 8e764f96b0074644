//! The order of things in the use cases, and the audit trail.
//!
//! Checks come before writes, and the audit trail is told of a change only
//! after the change is made. What becomes of the telling changes neither the
//! result of a use case nor what it wrote: an event that cannot be written
//! is dropped, once and in silence, and nothing is tried again. The audit
//! trail is therefore no record that every change is sure to be in.

use vstd::prelude::*;
use crate::application::use_cases::add_comment::{
    AddCommentInputView, AddCommentStageView, AddCommentUseCase,
};
use crate::application::use_cases::close_card::{
    CloseCardInputView, CloseCardStageView, CloseCardUseCase,
};
use crate::application::use_cases::create_card::{
    CreateCardStageView, CreateCardUseCase, CreateCardUseCaseInputView,
};
use crate::application::use_cases::move_card::{
    MoveCardInputView, MoveCardStageView, MoveCardUseCase,
};
use crate::application::use_cases::move_card::is_column_of;
use crate::application::use_cases::protocol::{EventView, RequestView, StepView};
use crate::application::use_cases::reopen_card::{
    ReopenCardInputView, ReopenCardStageView, ReopenCardUseCase,
};
use crate::application::use_cases::update_card::{
    UpdateCardStageView, UpdateCardUseCase, UpdateCardUseCaseInputView,
};
use crate::domain::entities::card::CardView;
use crate::domain::entities::comment::CommentView;
use crate::domain::errors::DomainErrorView;
use crate::infrastructure::persistence::memory_model::{Faults, StoreView};

verus! {

/// A store that differs from `store` only in whether its event writes
/// fail.
pub open spec fn with_event_writes(store: StoreView, failing: bool) -> StoreView {
    StoreView { faults: Faults { event_writes: failing, ..store.faults }, ..store }
}

/// Whether two stores hold the same but for their audit trails, their
/// clocks and the failures they simulate.
pub open spec fn same_but_audit(a: StoreView, b: StoreView) -> bool {
    &&& a.boards == b.boards
    &&& a.columns == b.columns
    &&& a.accesses == b.accesses
    &&& a.cards == b.cards
    &&& a.comments == b.comments
    &&& a.contents == b.contents
}

/// Once its comment is written, the use case ends with the comment
/// whatever it is told of the audit event.
pub proof fn lemma_add_comment_ignores_audit_reply(
    input: AddCommentInputView,
    comment: CommentView,
    reply: Result<(), DomainErrorView>,
)
    ensures
        AddCommentUseCase::next(
            input,
            AddCommentStageView::Auditing { comment },
            EventView::EventEmitted(reply),
        ) == (AddCommentStageView::Finished, StepView::<CommentView>::Finish(Ok(comment))),
{
}

/// Once its card is created, the use case ends with the card whatever it
/// is told of the audit event.
pub proof fn lemma_create_card_ignores_audit_reply(
    input: CreateCardUseCaseInputView,
    card: CardView,
    reply: Result<(), DomainErrorView>,
)
    ensures
        CreateCardUseCase::next(
            input,
            CreateCardStageView::Auditing { card },
            EventView::EventEmitted(reply),
        ) == (CreateCardStageView::Finished, StepView::<CardView>::Finish(Ok(card))),
{
}

/// Once its card is moved, the use case ends with the card whatever it is
/// told of the audit event.
pub proof fn lemma_move_card_ignores_audit_reply(
    input: MoveCardInputView,
    updated: CardView,
    reply: Result<(), DomainErrorView>,
)
    ensures
        MoveCardUseCase::next(
            input,
            MoveCardStageView::Auditing { updated },
            EventView::EventEmitted(reply),
        ) == (MoveCardStageView::Finished, StepView::<CardView>::Finish(Ok(updated))),
{
}

/// Once its card is updated, the use case ends with the card whatever it
/// is told of the audit event.
pub proof fn lemma_update_card_ignores_audit_reply(
    input: UpdateCardUseCaseInputView,
    updated: CardView,
    reply: Result<(), DomainErrorView>,
)
    ensures
        UpdateCardUseCase::next(
            input,
            UpdateCardStageView::Auditing { updated },
            EventView::EventEmitted(reply),
        ) == (UpdateCardStageView::Finished, StepView::<CardView>::Finish(Ok(updated))),
{
}

/// Once its card is closed, the use case ends well whatever it is told of
/// the audit event.
pub proof fn lemma_close_card_ignores_audit_reply(
    input: CloseCardInputView,
    reply: Result<(), DomainErrorView>,
)
    ensures
        CloseCardUseCase::next(input, CloseCardStageView::Auditing, EventView::EventEmitted(reply))
            == (CloseCardStageView::Finished, StepView::<()>::Finish(Ok(()))),
{
}

/// Once its card is reopened, the use case ends well whatever it is told
/// of the audit event.
pub proof fn lemma_reopen_card_ignores_audit_reply(
    input: ReopenCardInputView,
    reply: Result<(), DomainErrorView>,
)
    ensures
        ReopenCardUseCase::next(
            input,
            ReopenCardStageView::Auditing,
            EventView::EventEmitted(reply),
        ) == (ReopenCardStageView::Finished, StepView::<()>::Finish(Ok(()))),
{
}

/// Adding a comment gives the same result, and writes the same comment,
/// content and card, whether the store can write audit events or not.
pub proof fn lemma_add_comment_survives_audit_failure(
    store: StoreView,
    input: AddCommentInputView,
    comment_id: Seq<char>,
    content_id: Seq<char>,
    event_id: Seq<char>,
)
    ensures
        ({
            let failed = AddCommentUseCase::outcome(
                with_event_writes(store, true),
                input,
                comment_id,
                content_id,
                event_id,
            );
            let told = AddCommentUseCase::outcome(
                with_event_writes(store, false),
                input,
                comment_id,
                content_id,
                event_id,
            );
            &&& failed.1 == told.1
            &&& same_but_audit(failed.0, told.0)
            &&& failed.0.events == store.events
        }),
{
    let a = with_event_writes(store, true);
    let b = with_event_writes(store, false);
    assert(a.cards == b.cards);
}

/// Creating a card gives the same result, and writes the same card,
/// whether the store can write audit events or not.
pub proof fn lemma_create_card_survives_audit_failure(
    store: StoreView,
    input: CreateCardUseCaseInputView,
    card_id: Seq<char>,
    event_id: Seq<char>,
)
    ensures
        ({
            let failed = CreateCardUseCase::outcome(
                with_event_writes(store, true),
                input,
                card_id,
                event_id,
            );
            let told = CreateCardUseCase::outcome(
                with_event_writes(store, false),
                input,
                card_id,
                event_id,
            );
            &&& failed.1 == told.1
            &&& same_but_audit(failed.0, told.0)
            &&& failed.0.events == store.events
        }),
{
}

/// Moving a card gives the same result, and writes the same card, whether
/// the store can write audit events or not.
pub proof fn lemma_move_card_survives_audit_failure(
    store: StoreView,
    input: MoveCardInputView,
    event_id: Seq<char>,
)
    ensures
        ({
            let failed = MoveCardUseCase::outcome(with_event_writes(store, true), input, event_id);
            let told = MoveCardUseCase::outcome(with_event_writes(store, false), input, event_id);
            &&& failed.1 == told.1
            &&& same_but_audit(failed.0, told.0)
            &&& failed.0.events == store.events
        }),
{
}

/// Updating a card gives the same result, and writes the same card,
/// whether the store can write audit events or not.
pub proof fn lemma_update_card_survives_audit_failure(
    store: StoreView,
    input: UpdateCardUseCaseInputView,
    event_id: Seq<char>,
)
    ensures
        ({
            let failed = UpdateCardUseCase::outcome(with_event_writes(store, true), input, event_id);
            let told = UpdateCardUseCase::outcome(with_event_writes(store, false), input, event_id);
            &&& failed.1 == told.1
            &&& same_but_audit(failed.0, told.0)
            &&& failed.0.events == store.events
        }),
{
}

/// Closing a card gives the same result, and changes the same status,
/// whether the store can write audit events or not.
pub proof fn lemma_close_card_survives_audit_failure(
    store: StoreView,
    input: CloseCardInputView,
    event_id: Seq<char>,
)
    ensures
        ({
            let failed = CloseCardUseCase::outcome(with_event_writes(store, true), input, event_id);
            let told = CloseCardUseCase::outcome(with_event_writes(store, false), input, event_id);
            &&& failed.1 == told.1
            &&& same_but_audit(failed.0, told.0)
            &&& failed.0.events == store.events
        }),
{
}

/// Reopening a card gives the same result, and changes the same status,
/// whether the store can write audit events or not.
pub proof fn lemma_reopen_card_survives_audit_failure(
    store: StoreView,
    input: ReopenCardInputView,
    event_id: Seq<char>,
)
    ensures
        ({
            let failed = ReopenCardUseCase::outcome(with_event_writes(store, true), input, event_id);
            let told = ReopenCardUseCase::outcome(with_event_writes(store, false), input, event_id);
            &&& failed.1 == told.1
            &&& same_but_audit(failed.0, told.0)
            &&& failed.0.events == store.events
        }),
{
}

/// The audit trail is told of a comment only after the comment was
/// written, and of that comment.
pub proof fn lemma_comment_is_written_before_it_is_audited(
    input: AddCommentInputView,
    stage: AddCommentStageView,
    event: EventView,
)
    requires
        AddCommentUseCase::next(input, stage, event).1 matches StepView::Call(
            RequestView::EmitEvent { .. },
        ),
    ensures
        stage is WritingComment,
        event matches EventView::CommentWritten(Ok(comment)) && AddCommentUseCase::next(
            input,
            stage,
            event,
        ).0 == (AddCommentStageView::Auditing { comment }),
{
}

/// A comment is asked to be written only once its card was found.
pub proof fn lemma_card_is_resolved_before_comment_is_written(
    input: AddCommentInputView,
    stage: AddCommentStageView,
    event: EventView,
)
    requires
        AddCommentUseCase::next(input, stage, event).1 matches StepView::Call(
            RequestView::CreateComment { .. },
        ),
    ensures
        stage is FindingCard,
        event matches EventView::CardFound(Ok(Some(_))),
{
}

/// A card is asked to be created only after the board's columns were
/// loaded, and they are asked for only after the actor was found to have
/// access to the board.
pub proof fn lemma_access_is_checked_before_card_is_created(
    input: CreateCardUseCaseInputView,
    stage: CreateCardStageView,
    event: EventView,
)
    ensures
        CreateCardUseCase::next(input, stage, event).1 matches StepView::Call(
            RequestView::CreateCard { .. },
        ) ==> stage is LoadingColumns,
        CreateCardUseCase::next(input, stage, event).0 is LoadingColumns ==> stage
            is CheckingAccess && event == EventView::AccessChecked(Ok(true)),
        CreateCardUseCase::next(input, stage, event).1 matches StepView::Call(
            RequestView::EmitEvent { .. },
        ) ==> stage is Creating && event matches EventView::CardWritten(Ok(_)),
{
}

/// A card is asked to be moved only after the column was found among the
/// columns of the card's board, and the audit trail is told only after the
/// card was moved.
pub proof fn lemma_column_is_checked_before_card_is_moved(
    input: MoveCardInputView,
    stage: MoveCardStageView,
    event: EventView,
)
    ensures
        MoveCardUseCase::next(input, stage, event).1 matches StepView::Call(
            RequestView::UpdateCard { .. },
        ) ==> stage is LoadingColumns && (event matches EventView::ColumnsLoaded(Ok(columns))
            && is_column_of(columns, input.column_id)),
        MoveCardUseCase::next(input, stage, event).1 matches StepView::Call(
            RequestView::EmitEvent { .. },
        ) ==> stage is Updating && event matches EventView::CardWritten(Ok(_)),
{
}

/// The audit trail is told of a closed, a reopened or an updated card
/// only after the change was made.
pub proof fn lemma_change_is_made_before_it_is_audited(
    close: CloseCardInputView,
    closing: CloseCardStageView,
    reopen: ReopenCardInputView,
    reopening: ReopenCardStageView,
    update: UpdateCardUseCaseInputView,
    updating: UpdateCardStageView,
    event: EventView,
)
    ensures
        CloseCardUseCase::next(close, closing, event).1 matches StepView::Call(
            RequestView::EmitEvent { .. },
        ) ==> closing is Closing && event matches EventView::StatusChanged(Ok(_)),
        ReopenCardUseCase::next(reopen, reopening, event).1 matches StepView::Call(
            RequestView::EmitEvent { .. },
        ) ==> reopening is Reopening && event matches EventView::StatusChanged(Ok(_)),
        UpdateCardUseCase::next(update, updating, event).1 matches StepView::Call(
            RequestView::EmitEvent { .. },
        ) ==> updating is Updating && event matches EventView::CardWritten(Ok(_)),
{
}

} // verus!
