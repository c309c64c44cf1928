//! Escape sequences of the token-based pattern grammar.
use vstd::prelude::*;

use crate::errors::{ControlFlow, Kind};
use crate::lang::TokenStream;
use crate::pattex::bytes::{rest, seg, split_from, BACKSLASH};
use crate::pattex::errors::RegexError;
use crate::pattex::pattern::token::{
    BackSlash, BraceStart, BracketStart, Caret, Dollar, Dot, Minus, Or, ParenStart, Plus, Question,
    Star,
};
use crate::span::{union_of, Span};
use crate::syntax::{Char, Syntax};

verus! {

/// An escape sequence: a backslash and the escaped character.
#[derive(Debug, PartialEq, Eq, PartialOrd, Ord, Clone)]
pub enum Escape<'a> {
    /// `\\`
    BackSlash(BackSlash<'a>, BackSlash<'a>),
    /// `\^`
    Caret(BackSlash<'a>, Caret<'a>),
    /// `\*`
    Star(BackSlash<'a>, Star<'a>),
    /// `\$`
    Dollar(BackSlash<'a>, Dollar<'a>),
    /// `\?`
    Question(BackSlash<'a>, Question<'a>),
    /// `\+`
    Plus(BackSlash<'a>, Plus<'a>),
    /// `\-`
    Minus(BackSlash<'a>, Minus<'a>),
    /// `\.`
    Dot(BackSlash<'a>, Dot<'a>),
    /// `\|`
    Or(BackSlash<'a>, Or<'a>),
    /// `\{`
    BraceStart(BackSlash<'a>, BraceStart<'a>),
    /// `\[`
    BracketStart(BackSlash<'a>, BracketStart<'a>),
    /// `\(`
    ParenStart(BackSlash<'a>, ParenStart<'a>),
    /// `\b`
    Boundery(BackSlash<'a>, Char<'a, 0x62>),
    /// `\B`
    NonBoundery(BackSlash<'a>, Char<'a, 0x42>),
    /// `\d`
    Digit(BackSlash<'a>, Char<'a, 0x64>),
    /// `\D`
    NonDigit(BackSlash<'a>, Char<'a, 0x44>),
    /// `\f`
    FF(BackSlash<'a>, Char<'a, 0x66>),
    /// `\n`
    LF(BackSlash<'a>, Char<'a, 0x6e>),
    /// `\r`
    CR(BackSlash<'a>, Char<'a, 0x72>),
    /// `\s`
    S(BackSlash<'a>, Char<'a, 0x73>),
    /// `\S`
    NonS(BackSlash<'a>, Char<'a, 0x53>),
    /// `\t`
    TF(BackSlash<'a>, Char<'a, 0x74>),
    /// `\v`
    VF(BackSlash<'a>, Char<'a, 0x76>),
    /// `\w`
    Word(BackSlash<'a>, Char<'a, 0x77>),
    /// `\W`
    NonWord(BackSlash<'a>, Char<'a, 0x57>),
}

/// The escaped character of `e`.
pub open spec fn escaped_byte(e: Escape) -> u8 {
    match e {
        Escape::BackSlash(_, _) => 0x5cu8,
        Escape::Caret(_, _) => 0x5eu8,
        Escape::Star(_, _) => 0x2au8,
        Escape::Dollar(_, _) => 0x24u8,
        Escape::Question(_, _) => 0x3fu8,
        Escape::Plus(_, _) => 0x2bu8,
        Escape::Minus(_, _) => 0x2du8,
        Escape::Dot(_, _) => 0x2eu8,
        Escape::Or(_, _) => 0x7cu8,
        Escape::BraceStart(_, _) => 0x7bu8,
        Escape::BracketStart(_, _) => 0x5bu8,
        Escape::ParenStart(_, _) => 0x28u8,
        Escape::Boundery(_, _) => 0x62u8,
        Escape::NonBoundery(_, _) => 0x42u8,
        Escape::Digit(_, _) => 0x64u8,
        Escape::NonDigit(_, _) => 0x44u8,
        Escape::FF(_, _) => 0x66u8,
        Escape::LF(_, _) => 0x6eu8,
        Escape::CR(_, _) => 0x72u8,
        Escape::S(_, _) => 0x73u8,
        Escape::NonS(_, _) => 0x53u8,
        Escape::TF(_, _) => 0x74u8,
        Escape::VF(_, _) => 0x76u8,
        Escape::Word(_, _) => 0x77u8,
        Escape::NonWord(_, _) => 0x57u8,
    }
}

/// The backslash and the escaped character of `e`.
pub open spec fn escape_parts<'a>(e: Escape<'a>) -> (TokenStream<'a>, TokenStream<'a>) {
    match e {
        Escape::BackSlash(b, c) => (b.0, c.0),
        Escape::Caret(b, c) => (b.0, c.0),
        Escape::Star(b, c) => (b.0, c.0),
        Escape::Dollar(b, c) => (b.0, c.0),
        Escape::Question(b, c) => (b.0, c.0),
        Escape::Plus(b, c) => (b.0, c.0),
        Escape::Minus(b, c) => (b.0, c.0),
        Escape::Dot(b, c) => (b.0, c.0),
        Escape::Or(b, c) => (b.0, c.0),
        Escape::BraceStart(b, c) => (b.0, c.0),
        Escape::BracketStart(b, c) => (b.0, c.0),
        Escape::ParenStart(b, c) => (b.0, c.0),
        Escape::Boundery(b, c) => (b.0, c.0),
        Escape::NonBoundery(b, c) => (b.0, c.0),
        Escape::Digit(b, c) => (b.0, c.0),
        Escape::NonDigit(b, c) => (b.0, c.0),
        Escape::FF(b, c) => (b.0, c.0),
        Escape::LF(b, c) => (b.0, c.0),
        Escape::CR(b, c) => (b.0, c.0),
        Escape::S(b, c) => (b.0, c.0),
        Escape::NonS(b, c) => (b.0, c.0),
        Escape::TF(b, c) => (b.0, c.0),
        Escape::VF(b, c) => (b.0, c.0),
        Escape::Word(b, c) => (b.0, c.0),
        Escape::NonWord(b, c) => (b.0, c.0),
    }
}

/// `c` can follow a backslash.
pub open spec fn escapable(c: u8) -> bool {
    c == 0x5c || c == 0x5e || c == 0x2a || c == 0x24 || c == 0x3f || c == 0x2b || c == 0x2d || c == 0x2e || c == 0x7c || c == 0x7b || c == 0x5b || c == 0x28 || c == 0x62 || c == 0x42 || c == 0x64 || c == 0x44 || c == 0x66 || c == 0x6e || c == 0x72 || c == 0x73 || c == 0x53 || c == 0x74 || c == 0x76 || c == 0x77 || c == 0x57
}

/// The escape of `c`, made of the backslash `b` and the character `t`.
fn escape_of<'a>(c: u8, b: TokenStream<'a>, t: TokenStream<'a>) -> (r: Option<Escape<'a>>)
    ensures
        escapable(c) <==> r is Some,
        r is Some ==> escaped_byte(r->0) == c && escape_parts(r->0) == (b, t),
{
    let b = BackSlash(b);
    if c == 0x5c {
        Some(Escape::BackSlash(b, BackSlash(t)))
    } else if c == 0x5e {
        Some(Escape::Caret(b, Caret(t)))
    } else if c == 0x2a {
        Some(Escape::Star(b, Star(t)))
    } else if c == 0x24 {
        Some(Escape::Dollar(b, Dollar(t)))
    } else if c == 0x3f {
        Some(Escape::Question(b, Question(t)))
    } else if c == 0x2b {
        Some(Escape::Plus(b, Plus(t)))
    } else if c == 0x2d {
        Some(Escape::Minus(b, Minus(t)))
    } else if c == 0x2e {
        Some(Escape::Dot(b, Dot(t)))
    } else if c == 0x7c {
        Some(Escape::Or(b, Or(t)))
    } else if c == 0x7b {
        Some(Escape::BraceStart(b, BraceStart(t)))
    } else if c == 0x5b {
        Some(Escape::BracketStart(b, BracketStart(t)))
    } else if c == 0x28 {
        Some(Escape::ParenStart(b, ParenStart(t)))
    } else if c == 0x62 {
        Some(Escape::Boundery(b, Char(t)))
    } else if c == 0x42 {
        Some(Escape::NonBoundery(b, Char(t)))
    } else if c == 0x64 {
        Some(Escape::Digit(b, Char(t)))
    } else if c == 0x44 {
        Some(Escape::NonDigit(b, Char(t)))
    } else if c == 0x66 {
        Some(Escape::FF(b, Char(t)))
    } else if c == 0x6e {
        Some(Escape::LF(b, Char(t)))
    } else if c == 0x72 {
        Some(Escape::CR(b, Char(t)))
    } else if c == 0x73 {
        Some(Escape::S(b, Char(t)))
    } else if c == 0x53 {
        Some(Escape::NonS(b, Char(t)))
    } else if c == 0x74 {
        Some(Escape::TF(b, Char(t)))
    } else if c == 0x76 {
        Some(Escape::VF(b, Char(t)))
    } else if c == 0x77 {
        Some(Escape::Word(b, Char(t)))
    } else if c == 0x57 {
        Some(Escape::NonWord(b, Char(t)))
    } else {
        Option::None
    }
}

/// The outcome of parsing an escape from `pre`: a backslash and a character
/// that can follow it; otherwise the enum's recoverable error over the input.
pub open spec fn escape_parsed<'a>(pre: TokenStream<'a>, post: TokenStream<'a>, r: Result<Escape<'a>, RegexError>) -> bool {
    let b = pre.value@;
    if b.len() >= 2 && b[0] == BACKSLASH && escapable(b[1]) {
        &&& r is Ok
        &&& escaped_byte(r->Ok_0) == b[1]
        &&& seg(pre, 0, 1, escape_parts(r->Ok_0).0)
        &&& seg(pre, 1, 2, escape_parts(r->Ok_0).1)
        &&& rest(pre, 2, post)
    } else {
        r == Err::<Escape<'a>, RegexError>(
            RegexError::Other(Kind::Syntax("Escape", ControlFlow::Recovable, pre.span_of())),
        ) && post == pre
    }
}

impl<'a> Syntax<'a, RegexError> for Escape<'a> {
    open spec fn parsed(pre: TokenStream<'a>, post: TokenStream<'a>, r: Result<Self, RegexError>) -> bool {
        escape_parsed(pre, post, r)
    }

    open spec fn span_spec(&self) -> Span {
        union_of(escape_parts(*self).0.span_of(), escape_parts(*self).1.span_of())
    }

    fn parse(input: &mut TokenStream<'a>) -> (r: Result<Self, RegexError>) {
        let ghost pre = *input;
        proof {
            crate::pattex::bytes::lemma_rest_zero(pre);
        }
        let backslash = match input.first() {
            Some(c) => c == BACKSLASH,
            None => false,
        };
        if backslash {
            match input.get(1) {
                Some(c) => {
                    let mut probe = *input;
                    let b = split_from(&mut probe, 1, Ghost(pre), Ghost(0));
                    let t = split_from(&mut probe, 1, Ghost(pre), Ghost(1));
                    match escape_of(c, b, t) {
                        Some(e) => {
                            *input = probe;
                            return Ok(e);
                        },
                        None => {},
                    }
                },
                None => {},
            }
        }
        Err(RegexError::Other(Kind::Syntax("Escape", ControlFlow::Recovable, input.to_span())))
    }

    fn to_span(&self) -> (r: Span) {
        match self {
            Escape::BackSlash(b, c) => b.0.to_span().union(&c.0.to_span()),
            Escape::Caret(b, c) => b.0.to_span().union(&c.0.to_span()),
            Escape::Star(b, c) => b.0.to_span().union(&c.0.to_span()),
            Escape::Dollar(b, c) => b.0.to_span().union(&c.0.to_span()),
            Escape::Question(b, c) => b.0.to_span().union(&c.0.to_span()),
            Escape::Plus(b, c) => b.0.to_span().union(&c.0.to_span()),
            Escape::Minus(b, c) => b.0.to_span().union(&c.0.to_span()),
            Escape::Dot(b, c) => b.0.to_span().union(&c.0.to_span()),
            Escape::Or(b, c) => b.0.to_span().union(&c.0.to_span()),
            Escape::BraceStart(b, c) => b.0.to_span().union(&c.0.to_span()),
            Escape::BracketStart(b, c) => b.0.to_span().union(&c.0.to_span()),
            Escape::ParenStart(b, c) => b.0.to_span().union(&c.0.to_span()),
            Escape::Boundery(b, c) => b.0.to_span().union(&c.0.to_span()),
            Escape::NonBoundery(b, c) => b.0.to_span().union(&c.0.to_span()),
            Escape::Digit(b, c) => b.0.to_span().union(&c.0.to_span()),
            Escape::NonDigit(b, c) => b.0.to_span().union(&c.0.to_span()),
            Escape::FF(b, c) => b.0.to_span().union(&c.0.to_span()),
            Escape::LF(b, c) => b.0.to_span().union(&c.0.to_span()),
            Escape::CR(b, c) => b.0.to_span().union(&c.0.to_span()),
            Escape::S(b, c) => b.0.to_span().union(&c.0.to_span()),
            Escape::NonS(b, c) => b.0.to_span().union(&c.0.to_span()),
            Escape::TF(b, c) => b.0.to_span().union(&c.0.to_span()),
            Escape::VF(b, c) => b.0.to_span().union(&c.0.to_span()),
            Escape::Word(b, c) => b.0.to_span().union(&c.0.to_span()),
            Escape::NonWord(b, c) => b.0.to_span().union(&c.0.to_span()),
        }
    }
}

} // verus!
