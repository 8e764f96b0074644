pub mod card_status;
pub mod fizzy_id;
pub mod time;

pub use card_status::{CardStatus, CardStatusError};
pub use fizzy_id::{FizzyId, FizzyIdError};
pub use time::{Date, Timestamp};
