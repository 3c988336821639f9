//! Commit/reveal workflow for etching a rune: name validation, message
//! encoding, commitment derivation, reveal assembly and pending-state storage.

pub mod builder;
pub mod command;
pub mod commitment;
pub mod directive;
pub mod encoder;
pub mod schedule;
pub mod store;
pub mod validator;
pub mod varint;
pub mod workflow;
