//! Error severities and the error kinds raised by the builtin combinators.
use vstd::prelude::*;

use crate::span::Span;

verus! {

/// How a failure steers the parse.
#[derive(Debug, PartialEq, Eq, Structural, PartialOrd, Ord, Clone, Copy, Hash)]
pub enum ControlFlow {
    /// Aborts the whole parse; no alternative may be tried.
    Fatal,
    /// This alternative failed; sibling alternatives may still run.
    Recovable,
    /// The input ended before a decision was possible.
    Incomplete,
}

/// Error kinds raised by the builtin combinators.
#[derive(Debug, PartialEq, Eq, Hash, Clone, Copy)]
pub enum Kind {
    /// From the `next` combinator.
    Next(ControlFlow, Span),
    /// From the `next_if` combinator.
    NextIf(ControlFlow, Span),
    /// From the `keyword` combinator.
    Keyword(ControlFlow, Span),
    /// From the `take_until` combinator.
    TakeUntil(ControlFlow, Span),
    /// From parsing the named syntax.
    Syntax(&'static str, ControlFlow, Span),
    /// From parsing the named token.
    Token(&'static str, ControlFlow, Span),
    /// From parsing a `LimitsTo`.
    LimitsTo(ControlFlow, Span),
    /// From parsing a `Limits`.
    Limits(ControlFlow, Span),
    /// From parsing a `LimitsFrom`.
    LimitsFrom(ControlFlow, Span),
}

/// The severity a kind carries.
pub open spec fn kind_flow(k: Kind) -> ControlFlow {
    match k {
        Kind::Next(f, _) => f,
        Kind::NextIf(f, _) => f,
        Kind::Keyword(f, _) => f,
        Kind::TakeUntil(f, _) => f,
        Kind::Syntax(_, f, _) => f,
        Kind::Token(_, f, _) => f,
        Kind::LimitsTo(f, _) => f,
        Kind::Limits(f, _) => f,
        Kind::LimitsFrom(f, _) => f,
    }
}

/// The span a kind points at.
pub open spec fn kind_span(k: Kind) -> Span {
    match k {
        Kind::Next(_, s) => s,
        Kind::NextIf(_, s) => s,
        Kind::Keyword(_, s) => s,
        Kind::TakeUntil(_, s) => s,
        Kind::Syntax(_, _, s) => s,
        Kind::Token(_, _, s) => s,
        Kind::LimitsTo(_, s) => s,
        Kind::Limits(_, s) => s,
        Kind::LimitsFrom(_, s) => s,
    }
}

/// The same kind with its severity replaced by `f`.
pub open spec fn kind_with_flow(k: Kind, f: ControlFlow) -> Kind {
    match k {
        Kind::Next(_, s) => Kind::Next(f, s),
        Kind::NextIf(_, s) => Kind::NextIf(f, s),
        Kind::Keyword(_, s) => Kind::Keyword(f, s),
        Kind::TakeUntil(_, s) => Kind::TakeUntil(f, s),
        Kind::Syntax(n, _, s) => Kind::Syntax(n, f, s),
        Kind::Token(n, _, s) => Kind::Token(n, f, s),
        Kind::LimitsTo(_, s) => Kind::LimitsTo(f, s),
        Kind::Limits(_, s) => Kind::Limits(f, s),
        Kind::LimitsFrom(_, s) => Kind::LimitsFrom(f, s),
    }
}

/// An error type that parsers return.
pub trait ParseError: Sized {
    /// The severity of this error.
    spec fn flow(&self) -> ControlFlow;

    /// The span this error points at.
    spec fn spot(&self) -> Span;

    /// The error of this type that stands for a builtin kind, with the kind's
    /// severity and span.
    spec fn from_kind_spec(kind: Kind) -> Self;

    /// Wraps a builtin kind.
    fn from_kind(kind: Kind) -> (r: Self)
        ensures
            r == Self::from_kind_spec(kind),
            r.flow() == kind_flow(kind),
            r.spot() == kind_span(kind),
    ;

    /// Returns the span of this error.
    fn span(&self) -> (r: Span)
        ensures
            r == self.spot(),
    ;

    /// Returns the severity of this error.
    fn control_flow(&self) -> (r: ControlFlow)
        ensures
            r == self.flow(),
    ;

    /// This error with its severity raised to fatal.
    spec fn made_fatal(&self) -> Self;

    /// The same error, made fatal; everything else is kept.
    fn into_fatal(self) -> (r: Self)
        ensures
            r == self.made_fatal(),
            r.flow() == ControlFlow::Fatal,
            r.spot() == self.spot(),
    ;
}

impl ParseError for Kind {
    open spec fn flow(&self) -> ControlFlow {
        kind_flow(*self)
    }

    open spec fn spot(&self) -> Span {
        kind_span(*self)
    }

    open spec fn from_kind_spec(kind: Kind) -> Self {
        kind
    }

    open spec fn made_fatal(&self) -> Self {
        kind_with_flow(*self, ControlFlow::Fatal)
    }

    fn from_kind(kind: Kind) -> (r: Self) {
        kind
    }

    fn span(&self) -> (r: Span) {
        let kind = *self;
        proof {
            assert(self.spot() == kind_span(kind));
        }
        match kind {
            Kind::Next(_, at) => at,
            Kind::NextIf(_, at) => at,
            Kind::Keyword(_, at) => at,
            Kind::TakeUntil(_, at) => at,
            Kind::Syntax(_, _, at) => at,
            Kind::Token(_, _, at) => at,
            Kind::LimitsTo(_, at) => at,
            Kind::Limits(_, at) => at,
            Kind::LimitsFrom(_, at) => at,
        }
    }

    fn control_flow(&self) -> (r: ControlFlow) {
        let kind = *self;
        match kind {
            Kind::Next(flow, _) => flow,
            Kind::NextIf(flow, _) => flow,
            Kind::Keyword(flow, _) => flow,
            Kind::TakeUntil(flow, _) => flow,
            Kind::Syntax(_, flow, _) => flow,
            Kind::Token(_, flow, _) => flow,
            Kind::LimitsTo(flow, _) => flow,
            Kind::Limits(flow, _) => flow,
            Kind::LimitsFrom(flow, _) => flow,
        }
    }

    fn into_fatal(self) -> (r: Self) {
        let fatal = ControlFlow::Fatal;
        match self {
            Kind::Next(_, span) => Kind::Next(fatal, span),
            Kind::NextIf(_, span) => Kind::NextIf(fatal, span),
            Kind::Keyword(_, span) => Kind::Keyword(fatal, span),
            Kind::TakeUntil(_, span) => Kind::TakeUntil(fatal, span),
            Kind::Syntax(name, _, span) => Kind::Syntax(name, fatal, span),
            Kind::Token(name, _, span) => Kind::Token(name, fatal, span),
            Kind::LimitsTo(_, span) => Kind::LimitsTo(fatal, span),
            Kind::Limits(_, span) => Kind::Limits(fatal, span),
            Kind::LimitsFrom(_, span) => Kind::LimitsFrom(fatal, span),
        }
    }
}

} // verus!
