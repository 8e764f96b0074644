pub mod add_comment;
pub mod audit;
pub mod close_card;
pub mod create_card;
pub mod get_card_details;
pub mod list_board_cards;
pub mod list_boards;
pub mod list_my_cards;
pub mod move_card;
pub mod protocol;
pub mod reopen_card;
pub mod update_card;

pub use add_comment::{AddCommentInput, AddCommentUseCase};
pub use close_card::{CloseCardInput, CloseCardUseCase};
pub use create_card::{CreateCardUseCase, CreateCardUseCaseInput};
pub use get_card_details::{GetCardDetailsInput, GetCardDetailsUseCase};
pub use list_board_cards::{ListBoardCardsInput, ListBoardCardsOutput, ListBoardCardsUseCase};
pub use list_boards::{ListBoardsInput, ListBoardsOutput, ListBoardsUseCase};
pub use list_my_cards::{ListMyCardsInput, ListMyCardsOutput, ListMyCardsUseCase};
pub use move_card::{MoveCardInput, MoveCardUseCase};
pub use protocol::{Event, Request, Step};
pub use reopen_card::{ReopenCardInput, ReopenCardUseCase};
pub use update_card::{UpdateCardUseCase, UpdateCardUseCaseInput};
