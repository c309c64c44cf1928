//! The cursor type that pattern parsers read.
pub use crate::lang::TokenStream;
