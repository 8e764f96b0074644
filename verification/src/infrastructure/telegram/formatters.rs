pub mod board_formatter;
pub mod card_formatter;
pub mod error_formatter;

pub use board_formatter::BoardFormatter;
pub use card_formatter::CardFormatter;
pub use error_formatter::ErrorFormatter;
