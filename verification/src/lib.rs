//! Chess puzzle catalogue and training-set assembly library.
//!
//! Puzzles imported from an external dataset are kept in a puzzle store;
//! callers assemble named, fixed-size training sets of puzzles matching a
//! rating band and thematic criteria. The stores are abstract capabilities
//! (traits) so that fakes can stand in for them; an in-memory form of each
//! is provided.

pub mod config;
pub mod consts;
pub mod errors;
pub mod infrastructure;
pub mod puzzle_repository;
pub mod service;
pub mod themes;
pub mod training_set_repository;
pub mod types;
