//! Writing a comment to the relational store: three statements in one
//! transaction, committed together or not at all.

use vstd::prelude::*;
use vstd::string::*;
use crate::domain::entities::comment::{Comment, CommentView};
use crate::domain::errors::{DomainError, DomainErrorView};
use crate::domain::value_objects::fizzy_id::FizzyId;
use crate::domain::value_objects::time::Timestamp;
use crate::infrastructure::persistence::statements::{
    insert_comment, insert_comment_statement, insert_content, insert_content_statement,
    touch_card, touch_card_statement, Statement, StatementView,
};

verus! {

/// What the writer asks the database for.
#[derive(Debug)]
pub enum TxAction {
    Begin,
    Execute(Statement),
    Commit,
    Rollback,
    /// The write is over, with the comment or with the failure.
    Finish(Result<Comment, DomainError>),
}

/// What an action holds, as plain values.
pub enum TxActionView {
    Begin,
    Execute(StatementView),
    Commit,
    Rollback,
    Finish(Result<CommentView, DomainErrorView>),
}

impl View for TxAction {
    type V = TxActionView;

    open spec fn view(&self) -> TxActionView {
        match self {
            TxAction::Begin => TxActionView::Begin,
            TxAction::Execute(statement) => TxActionView::Execute(statement@),
            TxAction::Commit => TxActionView::Commit,
            TxAction::Rollback => TxActionView::Rollback,
            TxAction::Finish(Ok(comment)) => TxActionView::Finish(Ok(comment@)),
            TxAction::Finish(Err(e)) => TxActionView::Finish(Err(e@)),
        }
    }
}

/// What the writer is told: that it may begin, or how its last action
/// went; a failure comes with the database's message.
#[derive(Debug)]
pub enum TxEvent {
    Started,
    Done(Result<(), String>),
}

/// What an event holds, as plain values.
pub enum TxEventView {
    Started,
    Done(Result<(), Seq<char>>),
}

impl View for TxEvent {
    type V = TxEventView;

    open spec fn view(&self) -> TxEventView {
        match self {
            TxEvent::Started => TxEventView::Started,
            TxEvent::Done(Ok(_)) => TxEventView::Done(Ok(())),
            TxEvent::Done(Err(m)) => TxEventView::Done(Err(m@)),
        }
    }
}

/// How far the write has come.
#[derive(Debug)]
pub enum TxStage {
    Ready,
    Beginning,
    InsertingComment,
    InsertingContent,
    TouchingCard,
    Committing,
    /// A statement failed with this message; the transaction is being
    /// rolled back.
    RollingBack { message: String },
    Finished,
}

/// What a stage holds, as plain values.
pub enum TxStageView {
    Ready,
    Beginning,
    InsertingComment,
    InsertingContent,
    TouchingCard,
    Committing,
    RollingBack { message: Seq<char> },
    Finished,
}

impl View for TxStage {
    type V = TxStageView;

    open spec fn view(&self) -> TxStageView {
        match self {
            TxStage::Ready => TxStageView::Ready,
            TxStage::Beginning => TxStageView::Beginning,
            TxStage::InsertingComment => TxStageView::InsertingComment,
            TxStage::InsertingContent => TxStageView::InsertingContent,
            TxStage::TouchingCard => TxStageView::TouchingCard,
            TxStage::Committing => TxStageView::Committing,
            TxStage::RollingBack { message } => TxStageView::RollingBack { message: message@ },
            TxStage::Finished => TxStageView::Finished,
        }
    }
}

/// What is written: the comment under its identifier, and its content
/// under an identifier of its own.
#[derive(Debug)]
pub struct CommentDraft {
    pub comment_id: FizzyId,
    pub content_id: FizzyId,
    pub account_id: FizzyId,
    pub card_id: FizzyId,
    pub creator_id: FizzyId,
    pub content: String,
    /// The time of the write, as the comment that is returned shows it.
    pub now: Timestamp,
}

/// What a draft holds, as plain values.
pub struct CommentDraftView {
    pub comment_id: Seq<char>,
    pub content_id: Seq<char>,
    pub account_id: Seq<char>,
    pub card_id: Seq<char>,
    pub creator_id: Seq<char>,
    pub content: Seq<char>,
    pub now: Timestamp,
}

impl View for CommentDraft {
    type V = CommentDraftView;

    open spec fn view(&self) -> CommentDraftView {
        CommentDraftView {
            comment_id: self.comment_id@,
            content_id: self.content_id@,
            account_id: self.account_id@,
            card_id: self.card_id@,
            creator_id: self.creator_id@,
            content: self.content@,
            now: self.now,
        }
    }
}

impl CommentDraft {
    /// The draft of a new comment: under fresh identifiers, at the time of
    /// the system clock.
    pub fn fresh(account_id: &FizzyId, card_id: &FizzyId, creator_id: &FizzyId, content: &str) -> (r:
        Self)
        ensures
            r.comment_id.is_valid(),
            r.content_id.is_valid(),
            r@.account_id == account_id@,
            r@.card_id == card_id@,
            r@.creator_id == creator_id@,
            r@.content == content@,
    {
        CommentDraft {
            comment_id: FizzyId::generate(),
            content_id: FizzyId::generate(),
            account_id: account_id.clone(),
            card_id: card_id.clone(),
            creator_id: creator_id.clone(),
            content: String::from_str(content),
            now: Timestamp::now(),
        }
    }
}

impl CommentDraftView {
    /// The comment that a write that went through returns.
    pub open spec fn comment(self) -> CommentView {
        CommentView {
            id: self.comment_id,
            account_id: self.account_id,
            card_id: self.card_id,
            creator_id: self.creator_id,
            content: self.content,
            created_at: self.now,
            updated_at: self.now,
            creator_name: None,
        }
    }
}

/// The failure of the database, with its message.
pub open spec fn database_failure(message: Seq<char>) -> TxActionView {
    TxActionView::Finish(Err(DomainErrorView::InfrastructureError(message)))
}

/// Writes a comment in one transaction: the comment, its content, and the
/// new time of the card's last activity.
///
/// The transaction is committed only after all three statements went
/// through. As soon as one fails, no further statement is sent, the
/// transaction is rolled back, and the write ends with the failure.
#[derive(Debug)]
pub struct CommentWrite {
    draft: CommentDraft,
    stage: TxStage,
}

impl CommentWrite {
    /// What is written.
    pub closed spec fn draft(&self) -> CommentDraftView {
        self.draft@
    }

    /// How far the write has come.
    pub closed spec fn stage(&self) -> TxStageView {
        self.stage@
    }

    /// What the writer does at a stage when it is told of an event: the
    /// stage it goes to, and its next action.
    pub open spec fn next(draft: CommentDraftView, stage: TxStageView, event: TxEventView) -> (
        TxStageView,
        TxActionView,
    ) {
        match (stage, event) {
            (TxStageView::Ready, TxEventView::Started) => (TxStageView::Beginning, TxActionView::Begin),
            (TxStageView::Beginning, TxEventView::Done(Ok(_))) => (
                TxStageView::InsertingComment,
                TxActionView::Execute(
                    insert_comment(
                        draft.comment_id,
                        draft.account_id,
                        draft.card_id,
                        draft.creator_id,
                    ),
                ),
            ),
            (TxStageView::Beginning, TxEventView::Done(Err(m))) => (
                TxStageView::Finished,
                database_failure(m),
            ),
            (TxStageView::InsertingComment, TxEventView::Done(Ok(_))) => (
                TxStageView::InsertingContent,
                TxActionView::Execute(
                    insert_content(
                        draft.content_id,
                        draft.account_id,
                        draft.comment_id,
                        draft.content,
                    ),
                ),
            ),
            (TxStageView::InsertingContent, TxEventView::Done(Ok(_))) => (
                TxStageView::TouchingCard,
                TxActionView::Execute(touch_card(draft.card_id, draft.account_id)),
            ),
            (TxStageView::TouchingCard, TxEventView::Done(Ok(_))) => (
                TxStageView::Committing,
                TxActionView::Commit,
            ),
            (TxStageView::InsertingComment, TxEventView::Done(Err(m))) => (
                TxStageView::RollingBack { message: m },
                TxActionView::Rollback,
            ),
            (TxStageView::InsertingContent, TxEventView::Done(Err(m))) => (
                TxStageView::RollingBack { message: m },
                TxActionView::Rollback,
            ),
            (TxStageView::TouchingCard, TxEventView::Done(Err(m))) => (
                TxStageView::RollingBack { message: m },
                TxActionView::Rollback,
            ),
            (TxStageView::Committing, TxEventView::Done(Ok(_))) => (
                TxStageView::Finished,
                TxActionView::Finish(Ok(draft.comment())),
            ),
            (TxStageView::Committing, TxEventView::Done(Err(m))) => (
                TxStageView::Finished,
                database_failure(m),
            ),
            (TxStageView::RollingBack { message }, TxEventView::Done(_)) => (
                TxStageView::Finished,
                database_failure(message),
            ),
            _ => (
                TxStageView::Finished,
                database_failure("comment write driven out of turn"@),
            ),
        }
    }

    /// The writer for a draft, ready to start.
    pub fn new(draft: CommentDraft) -> (r: Self)
        ensures
            r.draft() == draft@,
            r.stage() == TxStageView::Ready,
    {
        CommentWrite { draft, stage: TxStage::Ready }
    }

    /// Takes the write one step on: from its stage and an event to its
    /// next stage and its next action.
    pub fn advance(self, event: TxEvent) -> (r: (Self, TxAction))
        ensures
            r.0.draft() == self.draft(),
            (r.0.stage(), r.1@) == Self::next(self.draft(), self.stage(), event@),
    {
        let draft = self.draft;
        match (self.stage, event) {
            (TxStage::Ready, TxEvent::Started) => (
                CommentWrite { draft, stage: TxStage::Beginning },
                TxAction::Begin,
            ),
            (TxStage::Beginning, TxEvent::Done(Ok(_))) => {
                let statement = insert_comment_statement(
                    &draft.comment_id,
                    &draft.account_id,
                    &draft.card_id,
                    &draft.creator_id,
                );
                (
                    CommentWrite { draft, stage: TxStage::InsertingComment },
                    TxAction::Execute(statement),
                )
            },
            (TxStage::Beginning, TxEvent::Done(Err(m))) => (
                CommentWrite { draft, stage: TxStage::Finished },
                TxAction::Finish(Err(DomainError::InfrastructureError(m))),
            ),
            (TxStage::InsertingComment, TxEvent::Done(Ok(_))) => {
                let statement = insert_content_statement(
                    &draft.content_id,
                    &draft.account_id,
                    &draft.comment_id,
                    draft.content.as_str(),
                );
                (
                    CommentWrite { draft, stage: TxStage::InsertingContent },
                    TxAction::Execute(statement),
                )
            },
            (TxStage::InsertingContent, TxEvent::Done(Ok(_))) => {
                let statement = touch_card_statement(&draft.card_id, &draft.account_id);
                (CommentWrite { draft, stage: TxStage::TouchingCard }, TxAction::Execute(statement))
            },
            (TxStage::TouchingCard, TxEvent::Done(Ok(_))) => (
                CommentWrite { draft, stage: TxStage::Committing },
                TxAction::Commit,
            ),
            (TxStage::InsertingComment, TxEvent::Done(Err(m))) => (
                CommentWrite { draft, stage: TxStage::RollingBack { message: m } },
                TxAction::Rollback,
            ),
            (TxStage::InsertingContent, TxEvent::Done(Err(m))) => (
                CommentWrite { draft, stage: TxStage::RollingBack { message: m } },
                TxAction::Rollback,
            ),
            (TxStage::TouchingCard, TxEvent::Done(Err(m))) => (
                CommentWrite { draft, stage: TxStage::RollingBack { message: m } },
                TxAction::Rollback,
            ),
            (TxStage::Committing, TxEvent::Done(Ok(_))) => {
                let comment = Comment {
                    id: draft.comment_id.clone(),
                    account_id: draft.account_id.clone(),
                    card_id: draft.card_id.clone(),
                    creator_id: draft.creator_id.clone(),
                    content: draft.content.clone(),
                    created_at: draft.now,
                    updated_at: draft.now,
                    creator_name: None,
                };
                (CommentWrite { draft, stage: TxStage::Finished }, TxAction::Finish(Ok(comment)))
            },
            (TxStage::Committing, TxEvent::Done(Err(m))) => (
                CommentWrite { draft, stage: TxStage::Finished },
                TxAction::Finish(Err(DomainError::InfrastructureError(m))),
            ),
            (TxStage::RollingBack { message }, TxEvent::Done(_)) => (
                CommentWrite { draft, stage: TxStage::Finished },
                TxAction::Finish(Err(DomainError::InfrastructureError(message))),
            ),
            _ => (
                CommentWrite { draft, stage: TxStage::Finished },
                TxAction::Finish(
                    Err(
                        DomainError::InfrastructureError(
                            String::from_str("comment write driven out of turn"),
                        ),
                    ),
                ),
            ),
        }
    }
}

/// The stages from which the transaction can still be committed: none of
/// its statements has failed.
pub open spec fn on_course(stage: TxStageView) -> bool {
    stage is Ready || stage is Beginning || stage is InsertingComment || stage is InsertingContent
        || stage is TouchingCard || stage is Committing
}

/// The transaction is committed only from the last statement, and only
/// when that statement went through.
pub proof fn lemma_commit_needs_all_statements(
    draft: CommentDraftView,
    stage: TxStageView,
    event: TxEventView,
)
    requires
        CommentWrite::next(draft, stage, event).1 is Commit,
    ensures
        stage is TouchingCard,
        event matches TxEventView::Done(Ok(_)),
{
}

/// A statement is sent only while none has failed, and the three are sent
/// in their order: the comment, its content, the card.
pub proof fn lemma_statements_in_order(
    draft: CommentDraftView,
    stage: TxStageView,
    event: TxEventView,
)
    requires
        CommentWrite::next(draft, stage, event).1 is Execute,
    ensures
        event matches TxEventView::Done(Ok(_)),
        stage is Beginning || stage is InsertingComment || stage is InsertingContent,
        stage is Beginning ==> CommentWrite::next(draft, stage, event).0 is InsertingComment,
        stage is InsertingComment ==> CommentWrite::next(draft, stage, event).0
            is InsertingContent,
        stage is InsertingContent ==> CommentWrite::next(draft, stage, event).0 is TouchingCard,
{
}

/// A statement that fails is followed by a rollback, and after the
/// rollback by the end of the write with that failure, whatever the
/// rollback gave: nothing more is sent.
pub proof fn lemma_failure_rolls_back(
    draft: CommentDraftView,
    stage: TxStageView,
    message: Seq<char>,
    rollback: Result<(), Seq<char>>,
)
    requires
        stage is InsertingComment || stage is InsertingContent || stage is TouchingCard,
    ensures
        CommentWrite::next(draft, stage, TxEventView::Done(Err(message))) == (
            TxStageView::RollingBack { message },
            TxActionView::Rollback,
        ),
        CommentWrite::next(
            draft,
            TxStageView::RollingBack { message },
            TxEventView::Done(rollback),
        ) == (TxStageView::Finished, database_failure(message)),
{
}

/// The write ends well only when the commit went through, and then with
/// the comment of the draft.
pub proof fn lemma_success_needs_commit(
    draft: CommentDraftView,
    stage: TxStageView,
    event: TxEventView,
)
    requires
        CommentWrite::next(draft, stage, event).1 matches TxActionView::Finish(Ok(_)),
    ensures
        stage is Committing,
        event matches TxEventView::Done(Ok(_)),
        CommentWrite::next(draft, stage, event).1 == TxActionView::Finish(Ok(draft.comment())),
{
}

/// Once the write is over it stays over: whatever it is told, it sends
/// nothing to the database.
pub proof fn lemma_finished_stays_finished(draft: CommentDraftView, event: TxEventView)
    ensures
        CommentWrite::next(draft, TxStageView::Finished, event).0 is Finished,
        CommentWrite::next(draft, TxStageView::Finished, event).1 is Finish,
{
}

} // verus!
