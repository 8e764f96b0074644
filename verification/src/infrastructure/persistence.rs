pub mod card_query;
pub mod card_row;
pub mod comment_write;
pub mod id_generator;
pub mod memory_model;
pub mod memory_service;
pub mod memory_store;
pub mod statements;

pub use id_generator::FizzyIdGenerator;
pub use memory_store::MemoryStore;
