pub mod card_repository;
pub mod event_actions;
pub mod event_repository;

pub use card_repository::{
    CardFacts, CardFilters, CardFiltersView, CreateCardInput, CreateCardInputView, UpdateCardInput,
    UpdateCardInputView,
};
pub use event_repository::{CreateEventInput, Particulars};
