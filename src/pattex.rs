//! A regular-expression pattern grammar built on the combinators.
pub mod bytes;
pub mod errors;
pub mod input;
pub mod pattern;
