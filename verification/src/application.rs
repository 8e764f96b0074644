pub mod errors;
pub mod use_cases;
