//! Persistence core of a question-and-answer service: identifier handling,
//! the error taxonomy, row decoding and the store contracts.

pub mod error;
pub mod ident;
pub mod laws;
pub mod model;
pub mod memory;
pub mod store;
