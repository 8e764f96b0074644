pub mod app_config;

pub use app_config::{AppConfig, DatabaseConfig, Environment, FizzyConfig, TelegramConfig};
