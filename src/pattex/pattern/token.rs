//! Single-byte and keyword tokens of the pattern grammar.
use vstd::prelude::*;

use crate::lang::TokenStream;
use crate::lexer::{keyword, keyword_parsed, next, next_parsed};
use crate::pattex::bytes::{
    BACKSLASH, BRACE_END, BRACE_START, BRACKET_END, BRACKET_START, CARET, DOLLAR, DOT, MINUS,
    PAREN_END, PAREN_START, PIPE, PLUS, QUESTION, STAR,
};
use crate::pattex::errors::RegexError;
use crate::span::Span;
use crate::syntax::Syntax;

pub use crate::pattex::bytes::is_token_char;

verus! {

/// The token outcome `r` with its text unwrapped.
pub open spec fn token_text<'a, T>(r: Result<T, RegexError>, text: spec_fn(T) -> TokenStream<'a>) -> Result<
    TokenStream<'a>,
    RegexError,
> {
    match r {
        Ok(t) => Ok(text(t)),
        Err(e) => Err(e),
    }
}

/// The backslash token `\`.
#[derive(Debug, PartialEq, Eq, PartialOrd, Ord, Clone)]
pub struct BackSlash<'a>(pub TokenStream<'a>);

impl<'a> Syntax<'a, RegexError> for BackSlash<'a> {
    open spec fn parsed(pre: TokenStream<'a>, post: TokenStream<'a>, r: Result<Self, RegexError>) -> bool {
        next_parsed::<RegexError>(pre, post, token_text(r, |t: Self| t.0), BACKSLASH)
    }

    open spec fn span_spec(&self) -> Span {
        self.0.span_of()
    }

    fn parse(input: &mut TokenStream<'a>) -> (r: Result<Self, RegexError>) {
        match next::<RegexError>(input, BACKSLASH) {
            Ok(t) => Ok(BackSlash(t)),
            Err(e) => Err(e),
        }
    }

    fn to_span(&self) -> (r: Span) {
        self.0.to_span()
    }
}

/// The caret token `^`.
#[derive(Debug, PartialEq, Eq, PartialOrd, Ord, Clone)]
pub struct Caret<'a>(pub TokenStream<'a>);

impl<'a> Syntax<'a, RegexError> for Caret<'a> {
    open spec fn parsed(pre: TokenStream<'a>, post: TokenStream<'a>, r: Result<Self, RegexError>) -> bool {
        next_parsed::<RegexError>(pre, post, token_text(r, |t: Self| t.0), CARET)
    }

    open spec fn span_spec(&self) -> Span {
        self.0.span_of()
    }

    fn parse(input: &mut TokenStream<'a>) -> (r: Result<Self, RegexError>) {
        match next::<RegexError>(input, CARET) {
            Ok(t) => Ok(Caret(t)),
            Err(e) => Err(e),
        }
    }

    fn to_span(&self) -> (r: Span) {
        self.0.to_span()
    }
}

/// The brace start token `{`.
#[derive(Debug, PartialEq, Eq, PartialOrd, Ord, Clone)]
pub struct BraceStart<'a>(pub TokenStream<'a>);

impl<'a> Syntax<'a, RegexError> for BraceStart<'a> {
    open spec fn parsed(pre: TokenStream<'a>, post: TokenStream<'a>, r: Result<Self, RegexError>) -> bool {
        next_parsed::<RegexError>(pre, post, token_text(r, |t: Self| t.0), BRACE_START)
    }

    open spec fn span_spec(&self) -> Span {
        self.0.span_of()
    }

    fn parse(input: &mut TokenStream<'a>) -> (r: Result<Self, RegexError>) {
        match next::<RegexError>(input, BRACE_START) {
            Ok(t) => Ok(BraceStart(t)),
            Err(e) => Err(e),
        }
    }

    fn to_span(&self) -> (r: Span) {
        self.0.to_span()
    }
}

/// The brace end token `}`.
#[derive(Debug, PartialEq, Eq, PartialOrd, Ord, Clone)]
pub struct BraceEnd<'a>(pub TokenStream<'a>);

impl<'a> Syntax<'a, RegexError> for BraceEnd<'a> {
    open spec fn parsed(pre: TokenStream<'a>, post: TokenStream<'a>, r: Result<Self, RegexError>) -> bool {
        next_parsed::<RegexError>(pre, post, token_text(r, |t: Self| t.0), BRACE_END)
    }

    open spec fn span_spec(&self) -> Span {
        self.0.span_of()
    }

    fn parse(input: &mut TokenStream<'a>) -> (r: Result<Self, RegexError>) {
        match next::<RegexError>(input, BRACE_END) {
            Ok(t) => Ok(BraceEnd(t)),
            Err(e) => Err(e),
        }
    }

    fn to_span(&self) -> (r: Span) {
        self.0.to_span()
    }
}

/// The bracket start token `[`.
#[derive(Debug, PartialEq, Eq, PartialOrd, Ord, Clone)]
pub struct BracketStart<'a>(pub TokenStream<'a>);

impl<'a> Syntax<'a, RegexError> for BracketStart<'a> {
    open spec fn parsed(pre: TokenStream<'a>, post: TokenStream<'a>, r: Result<Self, RegexError>) -> bool {
        next_parsed::<RegexError>(pre, post, token_text(r, |t: Self| t.0), BRACKET_START)
    }

    open spec fn span_spec(&self) -> Span {
        self.0.span_of()
    }

    fn parse(input: &mut TokenStream<'a>) -> (r: Result<Self, RegexError>) {
        match next::<RegexError>(input, BRACKET_START) {
            Ok(t) => Ok(BracketStart(t)),
            Err(e) => Err(e),
        }
    }

    fn to_span(&self) -> (r: Span) {
        self.0.to_span()
    }
}

/// The bracket end token `]`.
#[derive(Debug, PartialEq, Eq, PartialOrd, Ord, Clone)]
pub struct BracketEnd<'a>(pub TokenStream<'a>);

impl<'a> Syntax<'a, RegexError> for BracketEnd<'a> {
    open spec fn parsed(pre: TokenStream<'a>, post: TokenStream<'a>, r: Result<Self, RegexError>) -> bool {
        next_parsed::<RegexError>(pre, post, token_text(r, |t: Self| t.0), BRACKET_END)
    }

    open spec fn span_spec(&self) -> Span {
        self.0.span_of()
    }

    fn parse(input: &mut TokenStream<'a>) -> (r: Result<Self, RegexError>) {
        match next::<RegexError>(input, BRACKET_END) {
            Ok(t) => Ok(BracketEnd(t)),
            Err(e) => Err(e),
        }
    }

    fn to_span(&self) -> (r: Span) {
        self.0.to_span()
    }
}

/// The parenthesis start token `(`.
#[derive(Debug, PartialEq, Eq, PartialOrd, Ord, Clone)]
pub struct ParenStart<'a>(pub TokenStream<'a>);

impl<'a> Syntax<'a, RegexError> for ParenStart<'a> {
    open spec fn parsed(pre: TokenStream<'a>, post: TokenStream<'a>, r: Result<Self, RegexError>) -> bool {
        next_parsed::<RegexError>(pre, post, token_text(r, |t: Self| t.0), PAREN_START)
    }

    open spec fn span_spec(&self) -> Span {
        self.0.span_of()
    }

    fn parse(input: &mut TokenStream<'a>) -> (r: Result<Self, RegexError>) {
        match next::<RegexError>(input, PAREN_START) {
            Ok(t) => Ok(ParenStart(t)),
            Err(e) => Err(e),
        }
    }

    fn to_span(&self) -> (r: Span) {
        self.0.to_span()
    }
}

/// The parenthesis end token `)`.
#[derive(Debug, PartialEq, Eq, PartialOrd, Ord, Clone)]
pub struct ParenEnd<'a>(pub TokenStream<'a>);

impl<'a> Syntax<'a, RegexError> for ParenEnd<'a> {
    open spec fn parsed(pre: TokenStream<'a>, post: TokenStream<'a>, r: Result<Self, RegexError>) -> bool {
        next_parsed::<RegexError>(pre, post, token_text(r, |t: Self| t.0), PAREN_END)
    }

    open spec fn span_spec(&self) -> Span {
        self.0.span_of()
    }

    fn parse(input: &mut TokenStream<'a>) -> (r: Result<Self, RegexError>) {
        match next::<RegexError>(input, PAREN_END) {
            Ok(t) => Ok(ParenEnd(t)),
            Err(e) => Err(e),
        }
    }

    fn to_span(&self) -> (r: Span) {
        self.0.to_span()
    }
}

/// The or token `|`.
#[derive(Debug, PartialEq, Eq, PartialOrd, Ord, Clone)]
pub struct Or<'a>(pub TokenStream<'a>);

impl<'a> Syntax<'a, RegexError> for Or<'a> {
    open spec fn parsed(pre: TokenStream<'a>, post: TokenStream<'a>, r: Result<Self, RegexError>) -> bool {
        next_parsed::<RegexError>(pre, post, token_text(r, |t: Self| t.0), PIPE)
    }

    open spec fn span_spec(&self) -> Span {
        self.0.span_of()
    }

    fn parse(input: &mut TokenStream<'a>) -> (r: Result<Self, RegexError>) {
        match next::<RegexError>(input, PIPE) {
            Ok(t) => Ok(Or(t)),
            Err(e) => Err(e),
        }
    }

    fn to_span(&self) -> (r: Span) {
        self.0.to_span()
    }
}

/// The question token `?`.
#[derive(Debug, PartialEq, Eq, PartialOrd, Ord, Clone)]
pub struct Question<'a>(pub TokenStream<'a>);

impl<'a> Syntax<'a, RegexError> for Question<'a> {
    open spec fn parsed(pre: TokenStream<'a>, post: TokenStream<'a>, r: Result<Self, RegexError>) -> bool {
        next_parsed::<RegexError>(pre, post, token_text(r, |t: Self| t.0), QUESTION)
    }

    open spec fn span_spec(&self) -> Span {
        self.0.span_of()
    }

    fn parse(input: &mut TokenStream<'a>) -> (r: Result<Self, RegexError>) {
        match next::<RegexError>(input, QUESTION) {
            Ok(t) => Ok(Question(t)),
            Err(e) => Err(e),
        }
    }

    fn to_span(&self) -> (r: Span) {
        self.0.to_span()
    }
}

/// The dot token `.`.
#[derive(Debug, PartialEq, Eq, PartialOrd, Ord, Clone)]
pub struct Dot<'a>(pub TokenStream<'a>);

impl<'a> Syntax<'a, RegexError> for Dot<'a> {
    open spec fn parsed(pre: TokenStream<'a>, post: TokenStream<'a>, r: Result<Self, RegexError>) -> bool {
        next_parsed::<RegexError>(pre, post, token_text(r, |t: Self| t.0), DOT)
    }

    open spec fn span_spec(&self) -> Span {
        self.0.span_of()
    }

    fn parse(input: &mut TokenStream<'a>) -> (r: Result<Self, RegexError>) {
        match next::<RegexError>(input, DOT) {
            Ok(t) => Ok(Dot(t)),
            Err(e) => Err(e),
        }
    }

    fn to_span(&self) -> (r: Span) {
        self.0.to_span()
    }
}

/// The plus token `+`.
#[derive(Debug, PartialEq, Eq, PartialOrd, Ord, Clone)]
pub struct Plus<'a>(pub TokenStream<'a>);

impl<'a> Syntax<'a, RegexError> for Plus<'a> {
    open spec fn parsed(pre: TokenStream<'a>, post: TokenStream<'a>, r: Result<Self, RegexError>) -> bool {
        next_parsed::<RegexError>(pre, post, token_text(r, |t: Self| t.0), PLUS)
    }

    open spec fn span_spec(&self) -> Span {
        self.0.span_of()
    }

    fn parse(input: &mut TokenStream<'a>) -> (r: Result<Self, RegexError>) {
        match next::<RegexError>(input, PLUS) {
            Ok(t) => Ok(Plus(t)),
            Err(e) => Err(e),
        }
    }

    fn to_span(&self) -> (r: Span) {
        self.0.to_span()
    }
}

/// The minus token `-`.
#[derive(Debug, PartialEq, Eq, PartialOrd, Ord, Clone)]
pub struct Minus<'a>(pub TokenStream<'a>);

impl<'a> Syntax<'a, RegexError> for Minus<'a> {
    open spec fn parsed(pre: TokenStream<'a>, post: TokenStream<'a>, r: Result<Self, RegexError>) -> bool {
        next_parsed::<RegexError>(pre, post, token_text(r, |t: Self| t.0), MINUS)
    }

    open spec fn span_spec(&self) -> Span {
        self.0.span_of()
    }

    fn parse(input: &mut TokenStream<'a>) -> (r: Result<Self, RegexError>) {
        match next::<RegexError>(input, MINUS) {
            Ok(t) => Ok(Minus(t)),
            Err(e) => Err(e),
        }
    }

    fn to_span(&self) -> (r: Span) {
        self.0.to_span()
    }
}

/// The star token `*`.
#[derive(Debug, PartialEq, Eq, PartialOrd, Ord, Clone)]
pub struct Star<'a>(pub TokenStream<'a>);

impl<'a> Syntax<'a, RegexError> for Star<'a> {
    open spec fn parsed(pre: TokenStream<'a>, post: TokenStream<'a>, r: Result<Self, RegexError>) -> bool {
        next_parsed::<RegexError>(pre, post, token_text(r, |t: Self| t.0), STAR)
    }

    open spec fn span_spec(&self) -> Span {
        self.0.span_of()
    }

    fn parse(input: &mut TokenStream<'a>) -> (r: Result<Self, RegexError>) {
        match next::<RegexError>(input, STAR) {
            Ok(t) => Ok(Star(t)),
            Err(e) => Err(e),
        }
    }

    fn to_span(&self) -> (r: Span) {
        self.0.to_span()
    }
}

/// The dollar token `$`.
#[derive(Debug, PartialEq, Eq, PartialOrd, Ord, Clone)]
pub struct Dollar<'a>(pub TokenStream<'a>);

impl<'a> Syntax<'a, RegexError> for Dollar<'a> {
    open spec fn parsed(pre: TokenStream<'a>, post: TokenStream<'a>, r: Result<Self, RegexError>) -> bool {
        next_parsed::<RegexError>(pre, post, token_text(r, |t: Self| t.0), DOLLAR)
    }

    open spec fn span_spec(&self) -> Span {
        self.0.span_of()
    }

    fn parse(input: &mut TokenStream<'a>) -> (r: Result<Self, RegexError>) {
        match next::<RegexError>(input, DOLLAR) {
            Ok(t) => Ok(Dollar(t)),
            Err(e) => Err(e),
        }
    }

    fn to_span(&self) -> (r: Span) {
        self.0.to_span()
    }
}

/// The token `(?:`.
#[derive(Debug, PartialEq, Eq, PartialOrd, Ord, Clone)]
pub struct BracketStartQeustionColon<'a>(pub TokenStream<'a>);

impl<'a> Syntax<'a, RegexError> for BracketStartQeustionColon<'a> {
    open spec fn parsed(pre: TokenStream<'a>, post: TokenStream<'a>, r: Result<Self, RegexError>) -> bool {
        keyword_parsed::<RegexError>(pre, post, token_text(r, |t: Self| t.0), seq![0x28u8, 0x3fu8, 0x3au8])
    }

    open spec fn span_spec(&self) -> Span {
        self.0.span_of()
    }

    fn parse(input: &mut TokenStream<'a>) -> (r: Result<Self, RegexError>) {
        let literal: Vec<u8> = vec![0x28u8, 0x3fu8, 0x3au8];
        proof {
            assert(literal@ =~= seq![0x28u8, 0x3fu8, 0x3au8]);
        }
        match keyword::<RegexError>(input, literal.as_slice()) {
            Ok(t) => Ok(BracketStartQeustionColon(t)),
            Err(e) => Err(e),
        }
    }

    fn to_span(&self) -> (r: Span) {
        self.0.to_span()
    }
}

/// The token `(?=`.
#[derive(Debug, PartialEq, Eq, PartialOrd, Ord, Clone)]
pub struct BracketStartQeustionEq<'a>(pub TokenStream<'a>);

impl<'a> Syntax<'a, RegexError> for BracketStartQeustionEq<'a> {
    open spec fn parsed(pre: TokenStream<'a>, post: TokenStream<'a>, r: Result<Self, RegexError>) -> bool {
        keyword_parsed::<RegexError>(pre, post, token_text(r, |t: Self| t.0), seq![0x28u8, 0x3fu8, 0x3du8])
    }

    open spec fn span_spec(&self) -> Span {
        self.0.span_of()
    }

    fn parse(input: &mut TokenStream<'a>) -> (r: Result<Self, RegexError>) {
        let literal: Vec<u8> = vec![0x28u8, 0x3fu8, 0x3du8];
        proof {
            assert(literal@ =~= seq![0x28u8, 0x3fu8, 0x3du8]);
        }
        match keyword::<RegexError>(input, literal.as_slice()) {
            Ok(t) => Ok(BracketStartQeustionEq(t)),
            Err(e) => Err(e),
        }
    }

    fn to_span(&self) -> (r: Span) {
        self.0.to_span()
    }
}

/// The token `(?!`.
#[derive(Debug, PartialEq, Eq, PartialOrd, Ord, Clone)]
pub struct BracketStartQeustionNot<'a>(pub TokenStream<'a>);

impl<'a> Syntax<'a, RegexError> for BracketStartQeustionNot<'a> {
    open spec fn parsed(pre: TokenStream<'a>, post: TokenStream<'a>, r: Result<Self, RegexError>) -> bool {
        keyword_parsed::<RegexError>(pre, post, token_text(r, |t: Self| t.0), seq![0x28u8, 0x3fu8, 0x21u8])
    }

    open spec fn span_spec(&self) -> Span {
        self.0.span_of()
    }

    fn parse(input: &mut TokenStream<'a>) -> (r: Result<Self, RegexError>) {
        let literal: Vec<u8> = vec![0x28u8, 0x3fu8, 0x21u8];
        proof {
            assert(literal@ =~= seq![0x28u8, 0x3fu8, 0x21u8]);
        }
        match keyword::<RegexError>(input, literal.as_slice()) {
            Ok(t) => Ok(BracketStartQeustionNot(t)),
            Err(e) => Err(e),
        }
    }

    fn to_span(&self) -> (r: Span) {
        self.0.to_span()
    }
}

/// The token `(?<=`.
#[derive(Debug, PartialEq, Eq, PartialOrd, Ord, Clone)]
pub struct BracketStartQeustionLtEq<'a>(pub TokenStream<'a>);

impl<'a> Syntax<'a, RegexError> for BracketStartQeustionLtEq<'a> {
    open spec fn parsed(pre: TokenStream<'a>, post: TokenStream<'a>, r: Result<Self, RegexError>) -> bool {
        keyword_parsed::<RegexError>(pre, post, token_text(r, |t: Self| t.0), seq![0x28u8, 0x3fu8, 0x3cu8, 0x3du8])
    }

    open spec fn span_spec(&self) -> Span {
        self.0.span_of()
    }

    fn parse(input: &mut TokenStream<'a>) -> (r: Result<Self, RegexError>) {
        let literal: Vec<u8> = vec![0x28u8, 0x3fu8, 0x3cu8, 0x3du8];
        proof {
            assert(literal@ =~= seq![0x28u8, 0x3fu8, 0x3cu8, 0x3du8]);
        }
        match keyword::<RegexError>(input, literal.as_slice()) {
            Ok(t) => Ok(BracketStartQeustionLtEq(t)),
            Err(e) => Err(e),
        }
    }

    fn to_span(&self) -> (r: Span) {
        self.0.to_span()
    }
}

/// The token `(?<!`.
#[derive(Debug, PartialEq, Eq, PartialOrd, Ord, Clone)]
pub struct BracketStartQeustionLtNot<'a>(pub TokenStream<'a>);

impl<'a> Syntax<'a, RegexError> for BracketStartQeustionLtNot<'a> {
    open spec fn parsed(pre: TokenStream<'a>, post: TokenStream<'a>, r: Result<Self, RegexError>) -> bool {
        keyword_parsed::<RegexError>(pre, post, token_text(r, |t: Self| t.0), seq![0x28u8, 0x3fu8, 0x3cu8, 0x21u8])
    }

    open spec fn span_spec(&self) -> Span {
        self.0.span_of()
    }

    fn parse(input: &mut TokenStream<'a>) -> (r: Result<Self, RegexError>) {
        let literal: Vec<u8> = vec![0x28u8, 0x3fu8, 0x3cu8, 0x21u8];
        proof {
            assert(literal@ =~= seq![0x28u8, 0x3fu8, 0x3cu8, 0x21u8]);
        }
        match keyword::<RegexError>(input, literal.as_slice()) {
            Ok(t) => Ok(BracketStartQeustionLtNot(t)),
            Err(e) => Err(e),
        }
    }

    fn to_span(&self) -> (r: Span) {
        self.0.to_span()
    }
}

} // verus!
