//! Front end of a contract message generator.
//!
//! An interface definition or an implementation block, described by plain
//! values, is validated and normalised here, and turned into the ordered list
//! of fragments that the message builders emit, optionally wrapped in a
//! namespace.
pub mod input;
pub mod item;
pub mod laws;
pub mod message;
pub mod parser;
