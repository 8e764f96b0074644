//! The in-memory store as the other side of a use case: it performs the
//! operation that a use case asks for and tells how it went.

use vstd::prelude::*;
use crate::application::use_cases::protocol::{Event, EventView, Request, RequestView};
use crate::domain::errors::DomainErrorView;
use crate::domain::value_objects::card_status::CardStatus;
use crate::domain::value_objects::fizzy_id::is_id_text;
use crate::infrastructure::persistence::memory_model::{StoreView, Written};
use crate::infrastructure::persistence::memory_store::{
    card_written, comment_written, unit_written, MemoryStore,
};

verus! {

/// The store after a write: as the write left it, or as it was where the
/// write failed.
pub open spec fn store_after<T>(before: StoreView, written: Written<T>) -> StoreView {
    match written {
        Ok((after, _)) => after,
        Err(_) => before,
    }
}

/// What a write returned, or its failure.
pub open spec fn returned<T>(written: Written<T>) -> Result<T, DomainErrorView> {
    match written {
        Ok((_, value)) => Ok(value),
        Err(e) => Err(e),
    }
}

/// What the store makes of a request, where `first` and `second` are the
/// identifiers it gives to what it writes: the store afterwards, and the
/// event that tells how the operation went.
pub open spec fn performed(
    store: StoreView,
    request: RequestView,
    first: Seq<char>,
    second: Seq<char>,
) -> (StoreView, EventView) {
    match request {
        RequestView::FindCardByNumber { account_id, number } => (
            store,
            EventView::CardFound(
                Ok(
                    match store.card_by_number(account_id, number) {
                        Some(i) => Some(store.hydrated(store.cards[i])),
                        None => None,
                    },
                ),
            ),
        ),
        RequestView::FindBoardByName { account_id, name } => (
            store,
            EventView::BoardFound(
                Ok(
                    match store.board_by_name(account_id, name) {
                        Some(i) => Some(store.counted(store.boards[i])),
                        None => None,
                    },
                ),
            ),
        ),
        RequestView::UserHasAccess { account_id, board_id, user_id } => (
            store,
            EventView::AccessChecked(Ok(store.has_access(account_id, board_id, user_id))),
        ),
        RequestView::GetColumns { account_id, board_id } => (
            store,
            EventView::ColumnsLoaded(Ok(store.columns_of(account_id, board_id))),
        ),
        RequestView::ListAccessibleBoards { account_id, user_id } => (
            store,
            EventView::BoardsListed(Ok(store.accessible_boards(account_id, user_id))),
        ),
        RequestView::ListCards { account_id, filters } => (
            store,
            EventView::CardsListed(Ok(store.listed(account_id, filters))),
        ),
        RequestView::CreateCard { account_id, card } => {
            let written = store.create_card(account_id, card, first);
            (store_after(store, written), EventView::CardWritten(returned(written)))
        },
        RequestView::UpdateCard { account_id, card_id, changes } => {
            let written = store.update_card(account_id, card_id, changes);
            (store_after(store, written), EventView::CardWritten(returned(written)))
        },
        RequestView::CloseCard { account_id, card_id, user_id } => {
            let written = store.set_status(account_id, card_id, CardStatus::Closed);
            (store_after(store, written), EventView::StatusChanged(returned(written)))
        },
        RequestView::ReopenCard { account_id, card_id } => {
            let written = store.set_status(account_id, card_id, CardStatus::Triaged);
            (store_after(store, written), EventView::StatusChanged(returned(written)))
        },
        RequestView::CreateComment { account_id, card_id, creator_id, content } => {
            let written = store.create_comment(
                account_id,
                card_id,
                creator_id,
                content,
                first,
                second,
            );
            (store_after(store, written), EventView::CommentWritten(returned(written)))
        },
        RequestView::EmitEvent { account_id, entry } => {
            let written = store.create_event(account_id, entry, first);
            (store_after(store, written), EventView::EventEmitted(returned(written)))
        },
    }
}

impl MemoryStore {
    /// Performs the operation that a use case asks for and tells how it
    /// went. What is written gets fresh identifiers.
    pub fn perform(&mut self, request: Request) -> (event: Event)
        requires
            old(self).wf(),
        ensures
            final(self).wf(),
            exists|first: Seq<char>, second: Seq<char>|
                is_id_text(first) && is_id_text(second) && (final(self)@, event@)
                    == #[trigger] performed(old(self)@, request@, first, second),
    {
        let ghost before = self@;
        let ghost any = crate::domain::value_objects::fizzy_id::encode(0);
        proof {
            crate::domain::value_objects::fizzy_id::lemma_fixed_shape(0, 25);
        }
        match request {
            Request::FindCardByNumber { account_id, number } => {
                let r = self.find_by_number(&account_id, number);
                let event = Event::CardFound(r);
                assert((self@, event@) == performed(before, request@, any, any));
                event
            },
            Request::FindBoardByName { account_id, name } => {
                let r = self.find_by_name(&account_id, name.as_str());
                let event = Event::BoardFound(r);
                assert((self@, event@) == performed(before, request@, any, any));
                event
            },
            Request::UserHasAccess { account_id, board_id, user_id } => {
                let r = self.user_has_access(&account_id, &board_id, &user_id);
                let event = Event::AccessChecked(r);
                assert((self@, event@) == performed(before, request@, any, any));
                event
            },
            Request::GetColumns { account_id, board_id } => {
                let r = self.get_columns(&account_id, &board_id);
                let event = Event::ColumnsLoaded(r);
                assert((self@, event@) == performed(before, request@, any, any));
                event
            },
            Request::ListAccessibleBoards { account_id, user_id } => {
                let r = self.list_accessible(&account_id, &user_id);
                let event = Event::BoardsListed(r);
                assert((self@, event@) == performed(before, request@, any, any));
                event
            },
            Request::ListCards { account_id, filters } => {
                let r = self.list(&account_id, &filters);
                let event = Event::CardsListed(r);
                assert((self@, event@) == performed(before, request@, any, any));
                event
            },
            Request::CreateCard { account_id, card } => {
                let r = self.create(&account_id, card);
                let ghost id = choose|id: Seq<char>|
                    is_id_text(id) && card_written(
                        #[trigger] before.create_card(account_id@, card@, id),
                        before,
                        r,
                        self@,
                    );
                let event = Event::CardWritten(r);
                assert((self@, event@) == performed(before, request@, id, any));
                event
            },
            Request::UpdateCard { account_id, card_id, changes } => {
                let r = self.update(&account_id, &card_id, changes);
                let event = Event::CardWritten(r);
                assert((self@, event@) == performed(before, request@, any, any));
                event
            },
            Request::CloseCard { account_id, card_id, user_id } => {
                let r = self.close(&account_id, &card_id, &user_id);
                let event = Event::StatusChanged(r);
                assert((self@, event@) == performed(before, request@, any, any));
                event
            },
            Request::ReopenCard { account_id, card_id } => {
                let r = self.reopen(&account_id, &card_id);
                let event = Event::StatusChanged(r);
                assert((self@, event@) == performed(before, request@, any, any));
                event
            },
            Request::CreateComment { account_id, card_id, creator_id, content } => {
                let r = self.create_comment(&account_id, &card_id, &creator_id, content.as_str());
                let ghost ids = choose|a: Seq<char>, b: Seq<char>|
                    is_id_text(a) && is_id_text(b) && comment_written(
                        #[trigger] before.create_comment(
                            account_id@,
                            card_id@,
                            creator_id@,
                            content@,
                            a,
                            b,
                        ),
                        before,
                        r,
                        self@,
                    );
                let event = Event::CommentWritten(r);
                assert((self@, event@) == performed(before, request@, ids.0, ids.1));
                event
            },
            Request::EmitEvent { account_id, entry } => {
                let r = self.create_event(&account_id, entry);
                let ghost id = choose|id: Seq<char>|
                    is_id_text(id) && unit_written(
                        #[trigger] before.create_event(account_id@, entry@, id),
                        before,
                        r,
                        self@,
                    );
                let event = Event::EventEmitted(r);
                assert((self@, event@) == performed(before, request@, id, any));
                event
            },
        }
    }
}

} // verus!
