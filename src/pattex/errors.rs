//! Error types for parsing regular expressions.
use vstd::prelude::*;

use crate::errors::{kind_flow, kind_span, kind_with_flow, ControlFlow, Kind, ParseError};
use crate::span::Span;

verus! {

/// The pattern construct that failed to parse.
#[derive(Debug, PartialEq, Eq, Structural, Clone, Copy, Hash)]
pub enum PatternKind {
    /// Whitespace.
    S,
    /// A digit sequence.
    Digits,
    /// A repeat quantifier.
    Repeat,
    /// A repeat range whose lower bound exceeds its upper bound.
    RepeatRange,
    /// An escape sequence.
    Escape,
    /// A hexadecimal escape.
    HexEscape,
    /// A Unicode escape.
    UnicodeEscape,
    /// A character of a class.
    Char,
    /// A character range of a class.
    CharRange,
    /// A character class.
    CharClass,
}

/// The construct that failed, in the token-based grammar.
#[derive(Debug, PartialEq, Eq, Structural, Clone, Copy, Hash)]
pub enum CompileError {
    /// A digit sequence.
    Digits,
    /// A repeat quantifier.
    Repeat,
    /// A sequence of plain characters.
    CharSequence,
    /// A character range.
    CharRange,
    /// A character class.
    CharClass,
}

/// Error type returned by the pattern parsers.
#[derive(Debug, PartialEq, Eq, Clone, Copy, Hash)]
pub enum RegexError {
    /// An error of a builtin combinator.
    Other(Kind),
    /// A failure of the named pattern construct.
    Pattern(PatternKind, ControlFlow, Span),
    /// A failure of the named construct of the token-based grammar.
    Compile(CompileError, ControlFlow, Span),
}

pub open spec fn regex_flow(e: RegexError) -> ControlFlow {
    match e {
        RegexError::Other(k) => kind_flow(k),
        RegexError::Pattern(_, f, _) => f,
        RegexError::Compile(_, f, _) => f,
    }
}

pub open spec fn regex_span(e: RegexError) -> Span {
    match e {
        RegexError::Other(k) => kind_span(k),
        RegexError::Pattern(_, _, s) => s,
        RegexError::Compile(_, _, s) => s,
    }
}

impl ParseError for RegexError {
    open spec fn flow(&self) -> ControlFlow {
        regex_flow(*self)
    }

    open spec fn spot(&self) -> Span {
        regex_span(*self)
    }

    open spec fn from_kind_spec(kind: Kind) -> Self {
        RegexError::Other(kind)
    }

    open spec fn made_fatal(&self) -> Self {
        match *self {
            RegexError::Other(k) => RegexError::Other(kind_with_flow(k, ControlFlow::Fatal)),
            RegexError::Pattern(p, _, s) => RegexError::Pattern(p, ControlFlow::Fatal, s),
            RegexError::Compile(c, _, s) => RegexError::Compile(c, ControlFlow::Fatal, s),
        }
    }

    fn from_kind(kind: Kind) -> (r: Self) {
        RegexError::Other(kind)
    }

    fn span(&self) -> (r: Span) {
        match self {
            RegexError::Other(kind) => kind.span(),
            RegexError::Pattern(_, _, span) => *span,
            RegexError::Compile(_, _, span) => *span,
        }
    }

    fn control_flow(&self) -> (r: ControlFlow) {
        match self {
            RegexError::Other(kind) => kind.control_flow(),
            RegexError::Pattern(_, flow, _) => *flow,
            RegexError::Compile(_, flow, _) => *flow,
        }
    }

    fn into_fatal(self) -> (r: Self) {
        match self {
            RegexError::Other(kind) => RegexError::Other(kind.into_fatal()),
            RegexError::Pattern(kind, _, span) => RegexError::Pattern(kind, ControlFlow::Fatal, span),
            RegexError::Compile(kind, _, span) => RegexError::Compile(kind, ControlFlow::Fatal, span),
        }
    }
}

impl PatternKind {
    /// Re-labels an underlying error as a failure of this construct, keeping
    /// its severity and span.
    pub fn map(self, err: RegexError) -> (r: RegexError)
        ensures
            r == RegexError::Pattern(self, regex_flow(err), regex_span(err)),
    {
        RegexError::Pattern(self, err.control_flow(), err.span())
    }

    /// Re-labels an underlying error as a fatal failure of this construct,
    /// keeping its span.
    pub fn map_fatal(self, err: RegexError) -> (r: RegexError)
        ensures
            r == RegexError::Pattern(self, ControlFlow::Fatal, regex_span(err)),
    {
        RegexError::Pattern(self, ControlFlow::Fatal, err.span())
    }
}

impl CompileError {
    /// Re-labels an underlying error as a failure of this construct, keeping
    /// its severity and span.
    pub fn map(self, err: RegexError) -> (r: RegexError)
        ensures
            r == RegexError::Compile(self, regex_flow(err), regex_span(err)),
    {
        RegexError::Compile(self, err.control_flow(), err.span())
    }

    /// Re-labels an underlying error as a fatal failure of this construct,
    /// keeping its span.
    pub fn map_fatal(self, err: RegexError) -> (r: RegexError)
        ensures
            r == RegexError::Compile(self, ControlFlow::Fatal, regex_span(err)),
    {
        RegexError::Compile(self, ControlFlow::Fatal, err.span())
    }
}

} // verus!
