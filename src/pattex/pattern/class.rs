//! Character classes of the token-based pattern grammar.
use vstd::prelude::*;

use crate::errors::ControlFlow;
use crate::lang::TokenStream;
use crate::pattex::bytes::{
    lemma_rest_trans, rest, seg, skip, split_from, take_class, ByteClass, BACKSLASH, BRACKET_END,
    BRACKET_START, CARET, MINUS,
};
use crate::pattex::errors::{regex_span, CompileError, RegexError};
use crate::pattex::pattern::escape::{escapable, escape_parsed, Escape};
use crate::pattex::pattern::{class_body_start, head_span, next_flow, point, range_of};
use crate::span::{union_of, Span};
use crate::syntax::{many_parsed, Syntax};

verus! {

/// Characters of a class.
#[derive(Debug, PartialEq, Eq, PartialOrd, Ord, Clone)]
pub enum Chars<'a> {
    /// An escape sequence.
    Escape(Escape<'a>),
    /// A sequence of plain characters.
    Sequnce(TokenStream<'a>),
    /// A character range such as `A-Z` or `0-9`.
    Range { from: char, to: char, input: TokenStream<'a> },
}

/// An escape sequence starts the bytes `b`.
pub open spec fn escape_starts(b: Seq<u8>) -> bool {
    b.len() >= 2 && b[0] == BACKSLASH && escapable(b[1])
}

/// The text of a sequence or range.
pub open spec fn chars_text<'a>(c: Chars<'a>) -> TokenStream<'a> {
    match c {
        Chars::Sequnce(t) => t,
        Chars::Range { input, .. } => input,
        Chars::Escape(e) => crate::pattex::pattern::escape::escape_parts(e).0,
    }
}

/// The outcome of parsing class characters from `pre`: an escape if one
/// starts there; else the plain characters up to the next special one. A
/// single plain character before `-` starts a range; several stop before the
/// last of them, which then starts a range.
pub open spec fn chars_parsed<'a>(pre: TokenStream<'a>, post: TokenStream<'a>, r: Result<Chars<'a>, RegexError>) -> bool {
    let b = pre.value@;
    let len = b.len() as int;
    let n = skip(b, 0, ByteClass::Plain);
    if escape_starts(b) {
        r is Ok && r->Ok_0 is Escape && escape_parsed(pre, post, Ok(r->Ok_0->Escape_0))
    } else if n == 0 {
        r == Err::<Chars<'a>, RegexError>(
            RegexError::Compile(CompileError::CharSequence, ControlFlow::Recovable, point(pre, 0)),
        ) && rest(pre, 0, post)
    } else if n < len && b[n] == MINUS && n == 1 {
        if len == 2 {
            r == Err::<Chars<'a>, RegexError>(
                RegexError::Compile(CompileError::CharRange, ControlFlow::Fatal, range_of(pre, 0, 2)),
            )
        } else if !(b[0] < b[2]) {
            r == Err::<Chars<'a>, RegexError>(
                RegexError::Compile(CompileError::CharRange, ControlFlow::Fatal, range_of(pre, 0, 3)),
            )
        } else {
            &&& r is Ok && r->Ok_0 is Range
            &&& r->Ok_0->from == b[0] as char
            &&& r->Ok_0->to == b[2] as char
            &&& seg(pre, 0, 3, chars_text(r->Ok_0))
            &&& rest(pre, 3, post)
        }
    } else if n < len && b[n] == MINUS {
        r is Ok && r->Ok_0 is Sequnce && seg(pre, 0, n - 1, chars_text(r->Ok_0)) && rest(pre, n - 1, post)
    } else {
        r is Ok && r->Ok_0 is Sequnce && seg(pre, 0, n, chars_text(r->Ok_0)) && rest(pre, n, post)
    }
}

impl<'a> Syntax<'a, RegexError> for Chars<'a> {
    open spec fn parsed(pre: TokenStream<'a>, post: TokenStream<'a>, r: Result<Self, RegexError>) -> bool {
        chars_parsed(pre, post, r)
    }

    open spec fn span_spec(&self) -> Span {
        match *self {
            Chars::Escape(e) => e.span_spec(),
            _ => chars_text(*self).span_of(),
        }
    }

    fn parse(input: &mut TokenStream<'a>) -> (r: Result<Self, RegexError>) {
        let ghost pre = *input;
        let ghost b = pre.value@;
        match crate::syntax::ok::<RegexError, Escape<'a>>(input) {
            Ok(Some(escape)) => {
                return Ok(Chars::Escape(escape));
            },
            Ok(None) => {},
            Err(e) => {
                return Err(e);
            },
        }
        proof {
            crate::pattex::bytes::lemma_rest_zero(pre);
            crate::pattex::bytes::lemma_skip_bounds(b, 0, ByteClass::Plain);
        }
        let start = input.start();
        let mut content = *input;
        let sequence = take_class(&mut content, ByteClass::Plain);
        let n = sequence.len();
        if n == 0 {
            return Err(RegexError::Compile(CompileError::CharSequence, ControlFlow::Recovable, Span::Range(start, start)));
        }
        let dash = match content.first() {
            Some(c) => c == MINUS,
            None => false,
        };
        if dash {
            if n == 1 {
                let to = match content.get(1) {
                    Some(to) => to,
                    None => {
                        return Err(RegexError::Compile(
                            CompileError::CharRange,
                            ControlFlow::Fatal,
                            Span::Range(start, start + 2),
                        ));
                    },
                };
                let from = match sequence.first() {
                    Some(from) => from,
                    None => {
                        return Err(RegexError::Compile(
                            CompileError::CharRange,
                            ControlFlow::Fatal,
                            Span::Range(start, start + 2),
                        ));
                    },
                };
                if !(from < to) {
                    return Err(RegexError::Compile(
                        CompileError::CharRange,
                        ControlFlow::Fatal,
                        Span::Range(start, start + 3),
                    ));
                }
                let text = split_from(input, 3, Ghost(pre), Ghost(0));
                return Ok(Chars::Range { from: from as char, to: to as char, input: text });
            } else {
                let text = split_from(input, n - 1, Ghost(pre), Ghost(0));
                return Ok(Chars::Sequnce(text));
            }
        }
        *input = content;
        Ok(Chars::Sequnce(sequence))
    }

    fn to_span(&self) -> (r: Span) {
        match self {
            Chars::Escape(escape) => escape.to_span(),
            Chars::Sequnce(input) => input.to_span(),
            Chars::Range { from: _, to: _, input } => input.to_span(),
        }
    }
}

/// Character class.
#[derive(Debug, PartialEq, Eq, PartialOrd, Ord, Clone)]
pub struct CharClass<'a> {
    /// The opening `[`.
    pub delimiter_start: TokenStream<'a>,
    /// The negation mark `^`.
    pub negated: Option<TokenStream<'a>>,
    /// The characters of the class.
    pub chars: Vec<Chars<'a>>,
    /// The closing `]`.
    pub delimiter_end: TokenStream<'a>,
}

/// `ck` is `pre` after its first `k` bytes, and parsing class characters from
/// `ck` may end at `m` with the outcome `r`.
#[verifier::opaque]
pub open spec fn class_chars_between<'a>(
    pre: TokenStream<'a>,
    k: int,
    ck: TokenStream<'a>,
    m: TokenStream<'a>,
    r: Result<Vec<Chars<'a>>, RegexError>,
) -> bool {
    rest(pre, k, ck) && many_parsed::<RegexError, Chars<'a>>(ck, m, r)
}

/// The outcome of parsing a character class from `pre`: `[`, an optional `^`,
/// at least one class character, then `]`. After `[` every failure is fatal.
pub open spec fn char_class_parsed<'a>(pre: TokenStream<'a>, post: TokenStream<'a>, r: Result<CharClass<'a>, RegexError>) -> bool {
    let b = pre.value@;
    let len = b.len() as int;
    let k = class_body_start(b);
    if !(len > 0 && b[0] == BRACKET_START) {
        r == Err::<CharClass<'a>, RegexError>(
            RegexError::Compile(CompileError::CharClass, next_flow(b, 0), head_span(pre, 0)),
        ) && rest(pre, 0, post)
    } else {
        match r {
            Ok(cc) => {
                &&& seg(pre, 0, 1, cc.delimiter_start)
                &&& (k == 2) == (cc.negated is Some)
                &&& k == 2 ==> seg(pre, 1, 2, cc.negated->0)
                &&& cc.chars@.len() > 0
                &&& exists|ck: TokenStream<'a>, m: TokenStream<'a>|
                    #[trigger] class_chars_between(pre, k, ck, m, Ok(cc.chars)) && m.value@.len() > 0
                        && m.value@[0] == BRACKET_END && seg(m, 0, 1, cc.delimiter_end) && rest(m, 1, post)
            },
            Err(e) => {
                ||| exists|ck: TokenStream<'a>, m: TokenStream<'a>, e0: RegexError|
                    #[trigger] class_chars_between(pre, k, ck, m, Err(e0)) && e == RegexError::Compile(
                        CompileError::CharClass,
                        ControlFlow::Fatal,
                        regex_span(e0),
                    )
                ||| exists|ck: TokenStream<'a>, m: TokenStream<'a>, v: Vec<Chars<'a>>|
                    #[trigger] class_chars_between(pre, k, ck, m, Ok(v)) && {
                        ||| v@.len() == 0 && e == RegexError::Compile(
                            CompileError::CharClass,
                            ControlFlow::Fatal,
                            point(pre, 0),
                        )
                        ||| v@.len() > 0 && !(m.value@.len() > 0 && m.value@[0] == BRACKET_END) && e
                            == RegexError::Compile(CompileError::CharClass, ControlFlow::Fatal, head_span(m, 0))
                    }
            },
        }
    }
}

impl<'a> Syntax<'a, RegexError> for CharClass<'a> {
    open spec fn parsed(pre: TokenStream<'a>, post: TokenStream<'a>, r: Result<Self, RegexError>) -> bool {
        char_class_parsed(pre, post, r)
    }

    open spec fn span_spec(&self) -> Span {
        union_of(self.delimiter_start.span_of(), self.delimiter_end.span_of())
    }

    fn parse(input: &mut TokenStream<'a>) -> (r: Result<Self, RegexError>) {
        let ghost pre = *input;
        let delimiter_start = match crate::lexer::next::<RegexError>(input, BRACKET_START) {
            Ok(t) => t,
            Err(e) => {
                return Err(CompileError::CharClass.map(e));
            },
        };
        let ghost c1 = *input;
        proof {
            crate::pattex::bytes::lemma_rest_zero(c1);
        }
        let negated = match input.first() {
            Some(c) => {
                if c == CARET {
                    Some(input.split_to(1))
                } else {
                    Option::None
                }
            },
            None => Option::None,
        };
        let ghost ck = *input;
        proof {
            if negated is Some {
                lemma_rest_trans(pre, 1, c1, 1, ck);
                assert(negated->0.value@ =~= pre.value@.subrange(1, 2));
            } else {
                lemma_rest_trans(pre, 1, c1, 0, ck);
            }
        }
        let chars = match <Vec<Chars<'a>> as Syntax<'a, RegexError>>::parse(input) {
            Ok(chars) => chars,
            Err(e) => {
                proof {
                    reveal(class_chars_between);
                    crate::lang::lemma_consumed_concat(pre, ck, *input);
                    assert(class_chars_between(pre, class_body_start(pre.value@), ck, *input, Err(e)));
                }
                return Err(CompileError::CharClass.map_fatal(e));
            },
        };
        let ghost m = *input;
        proof {
            reveal(class_chars_between);
            crate::lang::lemma_consumed_concat(pre, ck, m);
            assert(class_chars_between(pre, class_body_start(pre.value@), ck, m, Ok(chars)));
        }
        if chars.len() == 0 {
            let start = delimiter_start.start();
            return Err(RegexError::Compile(CompileError::CharClass, ControlFlow::Fatal, Span::Range(start, start)));
        }
        let delimiter_end = match crate::lexer::next::<RegexError>(input, BRACKET_END) {
            Ok(t) => t,
            Err(e) => {
                proof {
                    crate::lang::lemma_consumed_concat(pre, m, *input);
                }
                return Err(CompileError::CharClass.map_fatal(e));
            },
        };
        proof {
            crate::lang::lemma_consumed_concat(pre, m, *input);
        }
        let done: Result<Self, RegexError> = Ok(CharClass { delimiter_start, negated, chars, delimiter_end });
        proof {
            assert(done->Ok_0.chars == chars);
        }
        done
    }

    fn to_span(&self) -> (r: Span) {
        self.delimiter_start.to_span().union(&self.delimiter_end.to_span())
    }
}

} // verus!
