//! The persistence and orchestration core of a card tracker.
//!
//! - `domain`: identifiers, card statuses, the entities, the failures of a
//!   store, and what goes into a store.
//! - `application`: the use cases. Each is a machine that asks for one store
//!   operation at a time (`advance`), so that it can be driven against any
//!   store, and can be run to its end against the in-memory store
//!   (`execute`).
//! - `infrastructure`: the filter-to-query builder, the statements and the
//!   transaction protocol of the relational store, the in-memory store, the
//!   configuration, and the texts shown to people.
//! - `text`, `numbers`, `seqs`, `sorting`: helpers for texts, numbers and
//!   lists.

pub mod application;
pub mod domain;
pub mod infrastructure;
pub mod numbers;
pub mod seqs;
pub mod shared;
pub mod sorting;
pub mod text;
