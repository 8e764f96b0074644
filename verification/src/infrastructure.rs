pub mod config;
pub mod persistence;
pub mod telegram;
