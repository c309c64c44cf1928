//! Repeat quantifiers of the token-based pattern grammar.
use vstd::prelude::*;

use crate::errors::{ControlFlow, ParseError};
use crate::lang::{advances, TokenStream};
use crate::pattex::bytes::{
    decimal, lemma_rest_trans, lemma_seg_shift, rest, seg, skip, split_from, ByteClass, BRACE_END,
    BRACE_START, COMMA,
};
use crate::pattex::errors::{CompileError, RegexError};
use crate::pattex::pattern::digits::Digits;
use crate::pattex::pattern::{head_span, next_flow, point, range_of};
use crate::span::Span;
use crate::syntax::Syntax;

verus! {

/// A repeat quantifier: `{n}`, `{n,}` or `{n,m}`, with its whole text.
#[derive(Debug, PartialEq, Eq, PartialOrd, Ord, Clone)]
pub enum Repeat<'a> {
    /// `{n}`
    Repeat { n: Digits<'a>, input: TokenStream<'a> },
    /// `{n,}`
    From { n: Digits<'a>, input: TokenStream<'a> },
    /// `{n,m}`
    Range { n: Digits<'a>, m: Digits<'a>, input: TokenStream<'a> },
}

/// The lower bound of a quantifier.
pub open spec fn lower_of<'a>(r: Repeat<'a>) -> Digits<'a> {
    match r {
        Repeat::Repeat { n, .. } => n,
        Repeat::From { n, .. } => n,
        Repeat::Range { n, .. } => n,
    }
}

/// The text of a quantifier.
pub open spec fn text_of<'a>(r: Repeat<'a>) -> TokenStream<'a> {
    match r {
        Repeat::Repeat { input, .. } => input,
        Repeat::From { input, .. } => input,
        Repeat::Range { input, .. } => input,
    }
}

/// `d` holds bytes `i..j` of `pre` and their value.
pub open spec fn digits_at(pre: TokenStream, i: int, j: int, d: Digits) -> bool {
    seg(pre, i, j, d.input) && d.value == decimal(pre.value@.subrange(i, j))
}

/// The outcome of parsing a quantifier from `pre`. Once `{` matched every
/// failure is fatal.
pub open spec fn repeat_parsed<'a>(pre: TokenStream<'a>, post: TokenStream<'a>, r: Result<Repeat<'a>, RegexError>) -> bool {
    let b = pre.value@;
    let len = b.len() as int;
    let d1 = skip(b, 1, ByteClass::Digit);
    if !(len > 0 && b[0] == BRACE_START) {
        r == Err::<Repeat<'a>, RegexError>(
            RegexError::Compile(CompileError::Repeat, next_flow(b, 0), head_span(pre, 0)),
        ) && rest(pre, 0, post)
    } else if d1 == 1 {
        r == Err::<Repeat<'a>, RegexError>(
            RegexError::Compile(CompileError::Repeat, ControlFlow::Fatal, point(pre, 1)),
        )
    } else if decimal(b.subrange(1, d1)) > u64::MAX {
        r == Err::<Repeat<'a>, RegexError>(
            RegexError::Compile(CompileError::Repeat, ControlFlow::Fatal, range_of(pre, 1, d1)),
        )
    } else if d1 < len && b[d1] == COMMA {
        upper_parsed(pre, d1, post, r)
    } else if !(d1 < len && b[d1] == BRACE_END) {
        r == Err::<Repeat<'a>, RegexError>(
            RegexError::Compile(CompileError::Repeat, ControlFlow::Fatal, head_span(pre, d1)),
        )
    } else {
        &&& r is Ok && r->Ok_0 is Repeat
        &&& digits_at(pre, 1, d1, lower_of(r->Ok_0))
        &&& seg(pre, 0, d1 + 1, text_of(r->Ok_0))
        &&& rest(pre, d1 + 1, post)
    }
}

/// The outcome of parsing the rest of `{n,` or `{n,m}` from `pre`, once the
/// lower bound (bytes `1..d1`) and the comma (at `d1`) were read.
#[verifier::opaque]
pub open spec fn upper_parsed<'a>(pre: TokenStream<'a>, d1: int, post: TokenStream<'a>, r: Result<Repeat<'a>, RegexError>) -> bool {
    let b = pre.value@;
    let len = b.len() as int;
    let d2 = skip(b, d1 + 1, ByteClass::Digit);
    let has_m = d2 > d1 + 1;
    let e = if has_m { d2 } else { d1 + 1 };
    if has_m && decimal(b.subrange(d1 + 1, d2)) > u64::MAX {
        r == Err::<Repeat<'a>, RegexError>(
            RegexError::Compile(CompileError::Repeat, ControlFlow::Fatal, range_of(pre, d1 + 1, d2)),
        )
    } else if !(e < len && b[e] == BRACE_END) {
        r == Err::<Repeat<'a>, RegexError>(
            RegexError::Compile(CompileError::Repeat, ControlFlow::Fatal, head_span(pre, e)),
        )
    } else if has_m && decimal(b.subrange(1, d1)) > decimal(b.subrange(d1 + 1, d2)) {
        r == Err::<Repeat<'a>, RegexError>(
            RegexError::Compile(CompileError::Repeat, ControlFlow::Fatal, range_of(pre, 0, e + 1)),
        )
    } else if has_m {
        &&& r is Ok && r->Ok_0 is Range
        &&& digits_at(pre, 1, d1, lower_of(r->Ok_0))
        &&& digits_at(pre, d1 + 1, d2, r->Ok_0->m)
        &&& seg(pre, 0, e + 1, text_of(r->Ok_0))
        &&& rest(pre, e + 1, post)
    } else {
        &&& r is Ok && r->Ok_0 is From
        &&& digits_at(pre, 1, d1, lower_of(r->Ok_0))
        &&& seg(pre, 0, e + 1, text_of(r->Ok_0))
        &&& rest(pre, e + 1, post)
    }
}

/// A well-formed `{n,m}` whose lower bound exceeds its upper bound fails
/// fatally, with the span of the whole token, braces included (for bounds that
/// fit in a `u64`; a larger bound fails over its own digits instead).
pub proof fn lemma_reversed_bounds_fail<'a>(
    pre: TokenStream<'a>,
    post: TokenStream<'a>,
    r: Result<Repeat<'a>, RegexError>,
    d1: int,
    d2: int,
)
    requires
        repeat_parsed(pre, post, r),
        pre.value@.len() > 0,
        pre.value@[0] == BRACE_START,
        d1 == skip(pre.value@, 1, ByteClass::Digit),
        1 < d1 < pre.value@.len(),
        pre.value@[d1] == COMMA,
        d2 == skip(pre.value@, d1 + 1, ByteClass::Digit),
        d1 + 1 < d2 < pre.value@.len(),
        pre.value@[d2] == BRACE_END,
        decimal(pre.value@.subrange(1, d1)) <= u64::MAX,
        decimal(pre.value@.subrange(d1 + 1, d2)) <= u64::MAX,
        decimal(pre.value@.subrange(1, d1)) > decimal(pre.value@.subrange(d1 + 1, d2)),
    ensures
        r == Err::<Repeat<'a>, RegexError>(
            RegexError::Compile(CompileError::Repeat, ControlFlow::Fatal, range_of(pre, 0, d2 + 1)),
        ),
{
    reveal(upper_parsed);
}

/// Parses digits from `input`, which is `pre` after its first `i` bytes.
fn digits_from<'a>(input: &mut TokenStream<'a>, Ghost(pre): Ghost<TokenStream<'a>>, Ghost(i): Ghost<int>) -> (r: Result<
    Digits<'a>,
    RegexError,
>)
    requires
        old(input).wf(),
        rest(pre, i, *old(input)),
    ensures
        final(input).wf(),
        advances(*old(input), *final(input)),
        ({
            let b = pre.value@;
            let d = skip(b, i, ByteClass::Digit);
            &&& i <= d <= b.len()
            &&& d == i ==> r == Err::<Digits<'a>, RegexError>(
                RegexError::Compile(CompileError::Digits, ControlFlow::Recovable, point(pre, i)),
            ) && rest(pre, i, *final(input))
            &&& d > i && decimal(b.subrange(i, d)) > u64::MAX ==> r == Err::<Digits<'a>, RegexError>(
                RegexError::Compile(CompileError::Digits, ControlFlow::Fatal, range_of(pre, i, d)),
            )
            &&& d > i && decimal(b.subrange(i, d)) <= u64::MAX ==> r is Ok && digits_at(pre, i, d, r->Ok_0)
                && rest(pre, d, *final(input))
        }),
{
    let ghost cur = *input;
    let r = Digits::parse(input);
    proof {
        let b = pre.value@;
        crate::pattex::bytes::lemma_skip_shift(b, i, ByteClass::Digit);
        crate::pattex::bytes::lemma_skip_bounds(b, i, ByteClass::Digit);
        crate::pattex::bytes::lemma_skip_bounds(cur.value@, 0, ByteClass::Digit);
        let n = skip(cur.value@, 0, ByteClass::Digit);
        assert(cur.value@.subrange(0, n) =~= b.subrange(i, i + n));
        if r is Ok {
            lemma_seg_shift(pre, i, cur, 0, n, r->Ok_0.input);
            lemma_rest_trans(pre, i, cur, n, *input);
        } else if n == 0 {
            lemma_rest_trans(pre, i, cur, 0, *input);
        }
    }
    r
}

impl<'a> Syntax<'a, RegexError> for Repeat<'a> {
    open spec fn parsed(pre: TokenStream<'a>, post: TokenStream<'a>, r: Result<Self, RegexError>) -> bool {
        repeat_parsed(pre, post, r)
    }

    open spec fn span_spec(&self) -> Span {
        text_of(*self).span_of()
    }

    fn parse(input: &mut TokenStream<'a>) -> (r: Result<Self, RegexError>) {
        let ghost pre = *input;
        let ghost b = pre.value@;
        proof {
            crate::pattex::bytes::lemma_rest_zero(pre);
        }
        let span = *input;
        let open = match crate::lexer::next::<RegexError>(input, BRACE_START) {
            Ok(t) => t,
            Err(e) => {
                return Err(CompileError::Repeat.map(e));
            },
        };
        proof {
            lemma_rest_trans(pre, 0, pre, 1, *input);
        }
        let ghost d1 = skip(b, 1, ByteClass::Digit);
        let ghost at_n = *input;
        let n = match digits_from(input, Ghost(pre), Ghost(1)) {
            Ok(n) => n,
            Err(e) => {
                proof {
                    crate::lang::lemma_consumed_concat(pre, at_n, *input);
                }
                return Err(CompileError::Repeat.map_fatal(e));
            },
        };
        let comma = match input.first() {
            Some(c) => c == COMMA,
            None => false,
        };
        if comma {
            split_from(input, 1, Ghost(pre), Ghost(d1));
            let ghost mid = *input;
            let r = parse_upper(input, span, n, Ghost(d1));
            proof {
                crate::lang::lemma_consumed_concat(pre, mid, *input);
            }
            return r;
        }
        let ghost before_end = *input;
        let end = match crate::lexer::next::<RegexError>(input, BRACE_END) {
            Ok(t) => t,
            Err(e) => {
                proof {
                    crate::lang::lemma_consumed_concat(pre, before_end, *input);
                }
                return Err(CompileError::Repeat.map_fatal(e));
            },
        };
        proof {
            lemma_rest_trans(pre, d1, before_end, 1, *input);
        }
        let mut whole_input = span;
        let whole = split_from(&mut whole_input, end.end() - span.start(), Ghost(pre), Ghost(0));
        Ok(Repeat::Repeat { n, input: whole })
    }

    fn to_span(&self) -> (r: Span) {
        match self {
            Repeat::Repeat { n: _, input } => input.to_span(),
            Repeat::From { n: _, input } => input.to_span(),
            Repeat::Range { n: _, m: _, input } => input.to_span(),
        }
    }
}

/// Parses the rest of `{n,` or `{n,m}` after the comma; `span` is the input
/// at the `{`.
fn parse_upper<'a>(input: &mut TokenStream<'a>, span: TokenStream<'a>, n: Digits<'a>, Ghost(d1): Ghost<int>) -> (r: Result<
    Repeat<'a>,
    RegexError,
>)
    requires
        old(input).wf(),
        span.wf(),
        1 < d1 < span.value@.len(),
        d1 == skip(span.value@, 1, ByteClass::Digit),
        digits_at(span, 1, d1, n),
        rest(span, d1 + 1, *old(input)),
    ensures
        final(input).wf(),
        advances(*old(input), *final(input)),
        upper_parsed(span, d1, *final(input), r),
{
    let ghost pre = span;
    let ghost b = pre.value@;
    let ghost start = *input;
    proof {
        reveal(upper_parsed);
        crate::pattex::bytes::lemma_skip_bounds(b, d1 + 1, ByteClass::Digit);
        crate::pattex::bytes::lemma_rest_zero(pre);
    }
    let ghost d2 = skip(b, d1 + 1, ByteClass::Digit);
    let m = match digits_from(input, Ghost(pre), Ghost(d1 + 1)) {
        Ok(m) => Some(m),
        Err(e) => {
            if e.control_flow() == ControlFlow::Fatal {
                return Err(CompileError::Repeat.map_fatal(e));
            }
            Option::None
        },
    };
    let ghost e = if d2 > d1 + 1 { d2 } else { d1 + 1 };
    let ghost at_end = *input;
    let end = match crate::lexer::next::<RegexError>(input, BRACE_END) {
        Ok(t) => t,
        Err(err) => {
            proof {
                crate::lang::lemma_consumed_concat(start, at_end, *input);
            }
            return Err(CompileError::Repeat.map_fatal(err));
        },
    };
    proof {
        lemma_rest_trans(pre, e, at_end, 1, *input);
        crate::pattex::bytes::lemma_rest_advances(pre, d1 + 1, start, e + 1, *input);
    }
    let len = end.end() - span.start();
    let mut whole_input = span;
    let whole = split_from(&mut whole_input, len, Ghost(pre), Ghost(0));
    match m {
        Some(m) => {
            if n.value > m.value {
                return Err(RegexError::Compile(CompileError::Repeat, ControlFlow::Fatal, span.to_span_at(len)));
            }
            Ok(Repeat::Range { n, m, input: whole })
        },
        None => Ok(Repeat::From { n, input: whole }),
    }
}

} // verus!
