//! A parser-combinator framework with source-span tracking.
//!
//! - [`span`]: source regions and their union and gap operations.
//! - [`errors`]: the fatal / recoverable / incomplete severities that steer
//!   backtracking, and the builtin error kinds.
//! - [`lang`]: the cursor over source text.
//! - [`lexer`]: single-byte, keyword and run combinators.
//! - [`syntax`]: the `Syntax` protocol and its generic nodes (optional,
//!   repeated, boxed, delimited, punctuated, alternated and length-bounded).
//! - [`tuples`]: `Syntax` for tuples of up to sixteen nodes.
//! - [`parser`]: the `Parser` capability and its adapters.
//! - [`pattex`]: a regular-expression pattern grammar built on the above.
//!
//! Every parse states, as a relation between the cursor before and after, what
//! it consumed and what it returned.
pub mod errors;
pub mod lang;
pub mod lexer;
pub mod parser;
pub mod pattex;
pub mod span;
pub mod syntax;
pub mod tuples;
