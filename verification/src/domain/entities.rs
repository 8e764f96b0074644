pub mod board;
pub mod card;
pub mod column;
pub mod comment;
pub mod user;

pub use board::{Board, BoardView};
pub use card::{Card, CardView};
pub use column::{Column, ColumnView};
pub use comment::{Comment, CommentView};
pub use user::{User, UserRole};
