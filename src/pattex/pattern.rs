//! Parser for regular-expression patterns.
use vstd::prelude::*;

use crate::errors::{ControlFlow, ParseError};
use crate::lang::{advances, TokenStream};
use crate::lexer::next;
use crate::pattex::bytes::{
    decimal, decimal_value, in_class, is_in_class, lemma_rest_trans, rest, seg, skip, split_from, take_class,
    take_class_from, ByteClass, BACKSLASH, BRACE_END,
    BRACE_START, BRACKET_END, BRACKET_START, CARET, COMMA, DOT, MINUS, PLUS, QUESTION, STAR,
};
use crate::pattex::errors::{PatternKind, RegexError};
use crate::span::{union_of, Span};
use crate::syntax::Syntax;

pub mod class;
pub mod digits;
pub mod escape;
pub mod expr;
pub mod repeat;
pub mod token;

verus! {

/// The severity of `next` failing at index `i` of `s`: incomplete at the end,
/// recoverable elsewhere.
pub open spec fn next_flow(s: Seq<u8>, i: int) -> ControlFlow {
    if i >= s.len() {
        ControlFlow::Incomplete
    } else {
        ControlFlow::Recovable
    }
}

/// The span of the byte at index `i` of `pre`; empty at the end.
pub open spec fn head_span(pre: TokenStream, i: int) -> Span {
    Span::Range(
        (pre.offset + i) as usize,
        (pre.offset + i + if i < pre.value@.len() { 1int } else { 0int }) as usize,
    )
}

/// The empty span at index `i` of `pre`.
pub open spec fn point(pre: TokenStream, i: int) -> Span {
    Span::Range((pre.offset + i) as usize, (pre.offset + i) as usize)
}

/// The span of bytes `i..j` of `pre`.
pub open spec fn range_of(pre: TokenStream, i: int, j: int) -> Span {
    Span::Range((pre.offset + i) as usize, (pre.offset + j) as usize)
}

/// Matches one byte, mapping its failure to the pattern construct `kind`:
/// with the failure's own severity, or fatal when `fatal` is set.
fn expect<'a>(input: &mut TokenStream<'a>, item: u8, kind: PatternKind, fatal: bool) -> (r: Result<
    TokenStream<'a>,
    RegexError,
>)
    requires
        old(input).wf(),
    ensures
        final(input).wf(),
        ({
            let pre = *old(input);
            let b = pre.value@;
            if b.len() > 0 && b[0] == item {
                r is Ok && seg(pre, 0, 1, r->Ok_0) && rest(pre, 1, *final(input))
            } else {
                &&& r == Err::<TokenStream<'a>, RegexError>(
                    RegexError::Pattern(
                        kind,
                        if fatal { ControlFlow::Fatal } else { next_flow(b, 0) },
                        head_span(pre, 0),
                    ),
                )
                &&& rest(pre, 0, *final(input))
            }
        }),
{
    let ghost pre = *input;
    proof {
        crate::lang::lemma_advances_refl(*input);
    }
    match next::<RegexError>(input, item) {
        Ok(t) => Ok(t),
        Err(e) => {
            if fatal {
                Err(kind.map_fatal(e))
            } else {
                Err(kind.map(e))
            }
        },
    }
}

/// A run of whitespace, possibly empty.
#[derive(Debug, PartialEq, Eq, PartialOrd, Ord, Clone)]
pub struct S<'a>(pub TokenStream<'a>);

impl<'a> Syntax<'a, RegexError> for S<'a> {
    /// Takes all leading whitespace; never fails.
    open spec fn parsed(pre: TokenStream<'a>, post: TokenStream<'a>, r: Result<Self, RegexError>) -> bool {
        let n = skip(pre.value@, 0, ByteClass::Space);
        r is Ok && seg(pre, 0, n, r->Ok_0.0) && rest(pre, n, post)
    }

    open spec fn span_spec(&self) -> Span {
        self.0.span_of()
    }

    fn parse(input: &mut TokenStream<'a>) -> (r: Result<Self, RegexError>) {
        Ok(S(take_class(input, ByteClass::Space)))
    }

    fn to_span(&self) -> (r: Span) {
        self.0.to_span()
    }
}

/// A non-empty run of decimal digits.
#[derive(Debug, PartialEq, Eq, PartialOrd, Ord, Clone)]
pub struct Digits<'a>(pub TokenStream<'a>);

/// Parsing digits from `pre`: the longest run of digits if it is not empty,
/// else a recoverable error at the start, consuming nothing.
pub open spec fn digits_parsed<'a>(pre: TokenStream<'a>, post: TokenStream<'a>, r: Result<Digits<'a>, RegexError>) -> bool {
    let n = skip(pre.value@, 0, ByteClass::Digit);
    if n > 0 {
        r is Ok && seg(pre, 0, n, r->Ok_0.0) && rest(pre, n, post)
    } else {
        r == Err::<Digits<'a>, RegexError>(
            RegexError::Pattern(PatternKind::Digits, ControlFlow::Recovable, point(pre, 0)),
        ) && rest(pre, 0, post)
    }
}

impl<'a> Digits<'a> {
    /// The value of the digits, saturated at `usize::MAX`.
    pub fn as_usize(&self) -> (r: usize)
        requires
            forall|k: int| 0 <= k < self.0.value@.len() ==> in_class(ByteClass::Digit, #[trigger] self.0.value@[k]),
        ensures
            r == if decimal(self.0.value@) <= usize::MAX { decimal(self.0.value@) } else { usize::MAX as nat },
    {
        match decimal_value(self.0.value) {
            Some(v) => {
                if v <= usize::MAX as u64 {
                    v as usize
                } else {
                    usize::MAX
                }
            },
            None => usize::MAX,
        }
    }
}

impl<'a> Syntax<'a, RegexError> for Digits<'a> {
    open spec fn parsed(pre: TokenStream<'a>, post: TokenStream<'a>, r: Result<Self, RegexError>) -> bool {
        digits_parsed(pre, post, r)
    }

    open spec fn span_spec(&self) -> Span {
        self.0.span_of()
    }

    fn parse(input: &mut TokenStream<'a>) -> (r: Result<Self, RegexError>) {
        let start = input.start();
        let content = take_class(input, ByteClass::Digit);
        if content.is_empty() {
            return Err(RegexError::Pattern(PatternKind::Digits, ControlFlow::Recovable, Span::Range(start, start)));
        }
        Ok(Digits(content))
    }

    fn to_span(&self) -> (r: Span) {
        self.0.to_span()
    }
}

/// `expect` on `input`, which is `pre` after its first `i` bytes.
fn expect_from<'a>(
    input: &mut TokenStream<'a>,
    item: u8,
    kind: PatternKind,
    fatal: bool,
    Ghost(pre): Ghost<TokenStream<'a>>,
    Ghost(i): Ghost<int>,
) -> (r: Result<TokenStream<'a>, RegexError>)
    requires
        old(input).wf(),
        rest(pre, i, *old(input)),
    ensures
        final(input).wf(),
        advances(*old(input), *final(input)),
        ({
            let b = pre.value@;
            if i < b.len() && b[i] == item {
                r is Ok && seg(pre, i, i + 1, r->Ok_0) && rest(pre, i + 1, *final(input))
            } else {
                &&& r == Err::<TokenStream<'a>, RegexError>(
                    RegexError::Pattern(
                        kind,
                        if fatal { ControlFlow::Fatal } else { next_flow(b, i) },
                        head_span(pre, i),
                    ),
                )
                &&& rest(pre, i, *final(input))
            }
        }),
{
    let ghost cur = *input;
    let r = expect(input, item, kind, fatal);
    proof {
        crate::lang::lemma_advances_refl(cur);
        if r is Ok {
            lemma_rest_trans(pre, i, cur, 1, *input);
            assert(r->Ok_0.value@ =~= pre.value@.subrange(i, i + 1));
        } else {
            lemma_rest_trans(pre, i, cur, 0, *input);
        }
    }
    r
}

/// `value` saturated at `usize::MAX`.
pub open spec fn saturated(value: nat) -> nat {
    if value <= usize::MAX {
        value
    } else {
        usize::MAX as nat
    }
}

/// A repeat quantifier: `*`, `?`, `+`, `{n}`, `{n,}` or `{n,m}`, with optional
/// whitespace inside the braces.
#[derive(Debug, PartialEq, Eq, PartialOrd, Ord, Clone)]
pub enum Repeat<'a> {
    Star(TokenStream<'a>),
    Question(TokenStream<'a>),
    Plus(TokenStream<'a>),
    N(Digits<'a>),
    RangeFrom(Digits<'a>),
    Range { n: Digits<'a>, m: Digits<'a> },
}

/// The outcome of parsing a repeat quantifier from `pre`.
pub open spec fn repeat_parsed<'a>(pre: TokenStream<'a>, post: TokenStream<'a>, r: Result<Repeat<'a>, RegexError>) -> bool {
    let b = pre.value@;
    let len = b.len() as int;
    if len > 0 && b[0] == STAR {
        r is Ok && r->Ok_0 is Star && seg(pre, 0, 1, r->Ok_0->Star_0) && rest(pre, 1, post)
    } else if len > 0 && b[0] == PLUS {
        r is Ok && r->Ok_0 is Plus && seg(pre, 0, 1, r->Ok_0->Plus_0) && rest(pre, 1, post)
    } else if len > 0 && b[0] == QUESTION {
        r is Ok && r->Ok_0 is Question && seg(pre, 0, 1, r->Ok_0->Question_0) && rest(pre, 1, post)
    } else if !(len > 0 && b[0] == BRACE_START) {
        r == Err::<Repeat<'a>, RegexError>(
            RegexError::Pattern(PatternKind::Repeat, ControlFlow::Recovable, point(pre, 0)),
        ) && rest(pre, 0, post)
    } else {
        braced_parsed(pre, post, r)
    }
}

/// The outcome of parsing `{n}`, `{n,}` or `{n,m}` from `pre`, which starts
/// with `{`.
#[verifier::opaque]
pub open spec fn braced_parsed<'a>(pre: TokenStream<'a>, post: TokenStream<'a>, r: Result<Repeat<'a>, RegexError>) -> bool {
    let b = pre.value@;
    let len = b.len() as int;
    let i1 = skip(b, 1, ByteClass::Space);
    let d1 = skip(b, i1, ByteClass::Digit);
    let i2 = skip(b, d1, ByteClass::Space);
    if d1 == i1 {
        r == Err::<Repeat<'a>, RegexError>(
            RegexError::Pattern(PatternKind::Digits, ControlFlow::Fatal, point(pre, i1)),
        )
    } else if i2 < len && b[i2] == COMMA {
        upper_parsed(pre, i1, d1, i2, post, r)
    } else if !(i2 < len && b[i2] == BRACE_END) {
        r == Err::<Repeat<'a>, RegexError>(
            RegexError::Pattern(PatternKind::Repeat, next_flow(b, i2), head_span(pre, i2)),
        )
    } else {
        r is Ok && r->Ok_0 is N && seg(pre, i1, d1, r->Ok_0->N_0.0) && rest(pre, i2 + 1, post)
    }
}

/// The outcome of parsing the rest of `{n,` or `{n,m}` once the lower bound
/// (bytes `i1..d1` of `pre`) and the comma (at `i2`) were read.
#[verifier::opaque]
pub open spec fn upper_parsed<'a>(
    pre: TokenStream<'a>,
    i1: int,
    d1: int,
    i2: int,
    post: TokenStream<'a>,
    r: Result<Repeat<'a>, RegexError>,
) -> bool {
    let b = pre.value@;
    let len = b.len() as int;
    let i3 = skip(b, i2 + 1, ByteClass::Space);
    let d2 = skip(b, i3, ByteClass::Digit);
    let i4 = if d2 > i3 { skip(b, d2, ByteClass::Space) } else { i3 };
    if !(i4 < len && b[i4] == BRACE_END) {
        r == Err::<Repeat<'a>, RegexError>(
            RegexError::Pattern(PatternKind::Repeat, next_flow(b, i4), head_span(pre, i4)),
        )
    } else if d2 > i3 && saturated(decimal(b.subrange(i1, d1))) > saturated(decimal(b.subrange(i3, d2))) {
        r == Err::<Repeat<'a>, RegexError>(
            RegexError::Pattern(
                PatternKind::RepeatRange,
                ControlFlow::Fatal,
                union_of(range_of(pre, i1, d1), range_of(pre, i3, d2)),
            ),
        )
    } else if d2 > i3 {
        &&& r is Ok && r->Ok_0 is Range
        &&& seg(pre, i1, d1, r->Ok_0->n.0)
        &&& seg(pre, i3, d2, r->Ok_0->m.0)
        &&& rest(pre, i4 + 1, post)
    } else {
        r is Ok && r->Ok_0 is RangeFrom && seg(pre, i1, d1, r->Ok_0->RangeFrom_0.0) && rest(pre, i4 + 1, post)
    }
}

/// The span of a token, or the union of a quantifier's bounds.
pub open spec fn repeat_span(r: Repeat) -> Span {
    match r {
        Repeat::Star(t) => t.span_of(),
        Repeat::Question(t) => t.span_of(),
        Repeat::Plus(t) => t.span_of(),
        Repeat::N(d) => d.0.span_of(),
        Repeat::RangeFrom(d) => d.0.span_of(),
        Repeat::Range { n, m } => union_of(n.0.span_of(), m.0.span_of()),
    }
}

impl<'a> Syntax<'a, RegexError> for Repeat<'a> {
    open spec fn parsed(pre: TokenStream<'a>, post: TokenStream<'a>, r: Result<Self, RegexError>) -> bool {
        repeat_parsed(pre, post, r)
    }

    open spec fn span_spec(&self) -> Span {
        repeat_span(*self)
    }

    fn parse(input: &mut TokenStream<'a>) -> (r: Result<Self, RegexError>) {
        let ghost pre = *input;
        proof {
            crate::pattex::bytes::lemma_rest_zero(pre);
        }
        let start = input.start();
        match input.first() {
            Some(c) => {
                if c == STAR {
                    return Ok(Repeat::Star(split_from(input, 1, Ghost(pre), Ghost(0))));
                }
                if c == PLUS {
                    return Ok(Repeat::Plus(split_from(input, 1, Ghost(pre), Ghost(0))));
                }
                if c == QUESTION {
                    return Ok(Repeat::Question(split_from(input, 1, Ghost(pre), Ghost(0))));
                }
                if c != BRACE_START {
                    return Err(RegexError::Pattern(PatternKind::Repeat, ControlFlow::Recovable, Span::Range(start, start)));
                }
            },
            None => {
                return Err(RegexError::Pattern(PatternKind::Repeat, ControlFlow::Recovable, Span::Range(start, start)));
            },
        }
        parse_braced(input)
    }

    fn to_span(&self) -> (r: Span) {
        match self {
            Repeat::N(digits) => digits.to_span(),
            Repeat::RangeFrom(digits) => digits.to_span(),
            Repeat::Range { n, m } => n.to_span().union(&m.to_span()),
            Repeat::Star(input) => input.to_span(),
            Repeat::Question(input) => input.to_span(),
            Repeat::Plus(input) => input.to_span(),
        }
    }
}

/// Parses `{n}`, `{n,}` or `{n,m}` from input that starts with `{`.
fn parse_braced<'a>(input: &mut TokenStream<'a>) -> (r: Result<Repeat<'a>, RegexError>)
    requires
        old(input).wf(),
        old(input).value@.len() > 0,
        old(input).value@[0] == BRACE_START,
    ensures
        final(input).wf(),
        advances(*old(input), *final(input)),
        braced_parsed(*old(input), *final(input), r),
{
    let ghost pre = *input;
    let ghost b = pre.value@;
    proof {
        crate::pattex::bytes::lemma_rest_zero(pre);
    }
    split_from(input, 1, Ghost(pre), Ghost(0));
    let ghost i1 = skip(b, 1, ByteClass::Space);
    take_class_from(input, ByteClass::Space, Ghost(pre), Ghost(1));
    let ghost at_n = *input;
    proof {
        crate::pattex::bytes::lemma_skip_shift(b, i1, ByteClass::Digit);
    }
    let n = match Digits::parse(input) {
        Ok(n) => n,
        Err(e) => {
            let r = Err(e.into_fatal());
            proof {
                reveal(braced_parsed);
                crate::lang::lemma_consumed_concat(pre, at_n, *input);
                assert(e == RegexError::Pattern(PatternKind::Digits, ControlFlow::Recovable, point(pre, i1)));
                crate::pattex::bytes::lemma_skip_bounds(at_n.value@, 0, ByteClass::Digit);
            }
            return r;
        },
    };
    let ghost d1 = skip(b, i1, ByteClass::Digit);
    proof {
        lemma_rest_trans(pre, i1, at_n, d1 - i1, *input);
        assert(n.0.value@ =~= b.subrange(i1, d1));
    }
    let ghost i2 = skip(b, d1, ByteClass::Space);
    take_class_from(input, ByteClass::Space, Ghost(pre), Ghost(d1));
    let comma = match input.first() {
        Some(c) => c == COMMA,
        None => false,
    };
    if comma {
        split_from(input, 1, Ghost(pre), Ghost(i2));
        let ghost mid = *input;
        let r = parse_upper(input, n, Ghost(pre), Ghost(i1), Ghost(d1), Ghost(i2));
        proof {
            reveal(braced_parsed);
            crate::lang::lemma_consumed_concat(pre, mid, *input);
        }
        r
    } else {
        let r = match expect_from(input, BRACE_END, PatternKind::Repeat, false, Ghost(pre), Ghost(i2)) {
            Ok(_) => Ok(Repeat::N(n)),
            Err(e) => Err(e),
        };
        proof {
            reveal(braced_parsed);
        }
        r
    }
}

/// Parses the rest of `{n,` or `{n,m}` after the comma.
fn parse_upper<'a>(
    input: &mut TokenStream<'a>,
    n: Digits<'a>,
    Ghost(pre): Ghost<TokenStream<'a>>,
    Ghost(i1): Ghost<int>,
    Ghost(d1): Ghost<int>,
    Ghost(i2): Ghost<int>,
) -> (r: Result<Repeat<'a>, RegexError>)
    requires
        old(input).wf(),
        0 < i1 < d1 <= i2 < pre.value@.len(),
        d1 == skip(pre.value@, i1, ByteClass::Digit),
        seg(pre, i1, d1, n.0),
        rest(pre, i2 + 1, *old(input)),
    ensures
        final(input).wf(),
        advances(*old(input), *final(input)),
        upper_parsed(pre, i1, d1, i2, *final(input), r),
{
    let ghost b = pre.value@;
    let ghost start = *input;
    proof {
        reveal(upper_parsed);
    }
    let ghost i3 = skip(b, i2 + 1, ByteClass::Space);
    take_class_from(input, ByteClass::Space, Ghost(pre), Ghost(i2 + 1));
    let ghost at_m = *input;
    let ghost d2 = skip(b, i3, ByteClass::Digit);
    proof {
        crate::pattex::bytes::lemma_skip_shift(b, i3, ByteClass::Digit);
        crate::pattex::bytes::lemma_skip_bounds(b, i1, ByteClass::Digit);
        crate::pattex::bytes::lemma_skip_bounds(b, i3, ByteClass::Digit);
    }
    let m = match crate::syntax::ok::<RegexError, Digits<'a>>(input) {
        Ok(m) => m,
        Err(e) => {
            proof {
                crate::lang::lemma_consumed_concat(start, at_m, *input);
            }
            return Err(e);
        },
    };
    let ghost i4 = if d2 > i3 { skip(b, d2, ByteClass::Space) } else { i3 };
    match &m {
        Some(mm) => {
            proof {
                lemma_rest_trans(pre, i3, at_m, d2 - i3, *input);
                assert(mm.0.value@ =~= b.subrange(i3, d2));
            }
            take_class_from(input, ByteClass::Space, Ghost(pre), Ghost(d2));
        },
        None => {},
    }
    let end = expect_from(input, BRACE_END, PatternKind::Repeat, false, Ghost(pre), Ghost(i4));
    proof {
        crate::pattex::bytes::lemma_skip_bounds(b, i2 + 1, ByteClass::Space);
        crate::pattex::bytes::lemma_skip_bounds(b, d2, ByteClass::Space);
        if end is Ok {
            crate::pattex::bytes::lemma_rest_advances(pre, i2 + 1, start, i4 + 1, *input);
        } else {
            crate::pattex::bytes::lemma_rest_advances(pre, i2 + 1, start, i4, *input);
        }
    }
    if end.is_err() {
        return Err(end.unwrap_err());
    }
    match m {
        Some(m) => {
            if n.as_usize() > m.as_usize() {
                return Err(RegexError::Pattern(
                    PatternKind::RepeatRange,
                    ControlFlow::Fatal,
                    n.to_span().union(&m.to_span()),
                ));
            }
            Ok(Repeat::Range { n, m })
        },
        None => Ok(Repeat::RangeFrom(n)),
    }
}

/// An escape sequence.
#[derive(Debug, PartialEq, Eq, PartialOrd, Ord, Clone)]
pub enum Escape<'a> {
    /// `\b`
    Boundary(TokenStream<'a>),
    /// `\B`
    NonBoundary(TokenStream<'a>),
    /// `\d`, the same as `[0-9]`
    Digit(TokenStream<'a>),
    /// `\D`, the same as `[^0-9]`
    NonDigit(TokenStream<'a>),
    /// `\f`
    PF(TokenStream<'a>),
    /// `\n`
    LF(TokenStream<'a>),
    /// `\r`
    CR(TokenStream<'a>),
    /// `\s`, the same as `[ \f\n\r\t\v]`
    S(TokenStream<'a>),
    /// `\S`, the same as `[^ \f\n\r\t\v]`
    NonS(TokenStream<'a>),
    /// `\t`
    T(TokenStream<'a>),
    /// `\v`
    V(TokenStream<'a>),
    /// `\w`, the same as `[A-Za-z0-9_]`
    Word(TokenStream<'a>),
    /// `\W`, the same as `[^A-Za-z0-9_]`
    NonWord(TokenStream<'a>),
    /// `\.`
    Dot(TokenStream<'a>),
    /// A hexadecimal escape, `\xnn`.
    X { prefix: TokenStream<'a>, num: TokenStream<'a> },
    /// A back reference, `\num`.
    BackReference(TokenStream<'a>),
    /// A Unicode escape, `\u{xx}`.
    Unicode {
        prefix: TokenStream<'a>,
        delimiter_start: TokenStream<'a>,
        num: TokenStream<'a>,
        delimiter_end: TokenStream<'a>,
    },
}

/// The letter after the backslash of a two-byte escape; `None` for the
/// longer escapes.
pub open spec fn letter_code(e: Escape) -> Option<u8> {
    match e {
        Escape::Boundary(_) => Some(0x62u8),
        Escape::NonBoundary(_) => Some(0x42u8),
        Escape::Digit(_) => Some(0x64u8),
        Escape::NonDigit(_) => Some(0x44u8),
        Escape::PF(_) => Some(0x66u8),
        Escape::LF(_) => Some(0x6eu8),
        Escape::CR(_) => Some(0x72u8),
        Escape::S(_) => Some(0x73u8),
        Escape::NonS(_) => Some(0x53u8),
        Escape::T(_) => Some(0x74u8),
        Escape::V(_) => Some(0x76u8),
        Escape::Word(_) => Some(0x77u8),
        Escape::NonWord(_) => Some(0x57u8),
        Escape::Dot(_) => Some(DOT),
        _ => Option::None,
    }
}

/// The text of a two-byte escape.
pub open spec fn letter_text<'a>(e: Escape<'a>) -> TokenStream<'a> {
    match e {
        Escape::Boundary(t) => t,
        Escape::NonBoundary(t) => t,
        Escape::Digit(t) => t,
        Escape::NonDigit(t) => t,
        Escape::PF(t) => t,
        Escape::LF(t) => t,
        Escape::CR(t) => t,
        Escape::S(t) => t,
        Escape::NonS(t) => t,
        Escape::T(t) => t,
        Escape::V(t) => t,
        Escape::Word(t) => t,
        Escape::NonWord(t) => t,
        Escape::Dot(t) => t,
        Escape::X { prefix, .. } => prefix,
        Escape::BackReference(t) => t,
        Escape::Unicode { prefix, .. } => prefix,
    }
}

/// The digits of a hexadecimal or Unicode escape.
pub open spec fn escape_num<'a>(e: Escape<'a>) -> TokenStream<'a> {
    match e {
        Escape::X { num, .. } => num,
        Escape::Unicode { num, .. } => num,
        _ => letter_text(e),
    }
}

/// The braces of a Unicode escape.
pub open spec fn escape_braces<'a>(e: Escape<'a>) -> (TokenStream<'a>, TokenStream<'a>) {
    match e {
        Escape::Unicode { delimiter_start, delimiter_end, .. } => (delimiter_start, delimiter_end),
        _ => (letter_text(e), letter_text(e)),
    }
}

/// `c` is the letter of a two-byte escape.
pub open spec fn is_letter(c: u8) -> bool {
    c == 0x62 || c == 0x42 || c == 0x64 || c == 0x44 || c == 0x66 || c == 0x6e || c == 0x72 || c
        == 0x73 || c == 0x53 || c == 0x74 || c == 0x76 || c == 0x77 || c == 0x57 || c == DOT
}

/// The two-byte escape for the letter `c`, holding the text `t`.
fn letter_escape<'a>(c: u8, t: TokenStream<'a>) -> (r: Option<Escape<'a>>)
    ensures
        is_letter(c) ==> r is Some && letter_code(r->0) == Some(c) && letter_text(r->0) == t,
        !is_letter(c) ==> r is None,
{
    if c == 0x62 {
        Some(Escape::Boundary(t))
    } else if c == 0x42 {
        Some(Escape::NonBoundary(t))
    } else if c == 0x64 {
        Some(Escape::Digit(t))
    } else if c == 0x44 {
        Some(Escape::NonDigit(t))
    } else if c == 0x66 {
        Some(Escape::PF(t))
    } else if c == 0x6e {
        Some(Escape::LF(t))
    } else if c == 0x72 {
        Some(Escape::CR(t))
    } else if c == 0x73 {
        Some(Escape::S(t))
    } else if c == 0x53 {
        Some(Escape::NonS(t))
    } else if c == 0x74 {
        Some(Escape::T(t))
    } else if c == 0x76 {
        Some(Escape::V(t))
    } else if c == 0x77 {
        Some(Escape::Word(t))
    } else if c == 0x57 {
        Some(Escape::NonWord(t))
    } else if c == DOT {
        Some(Escape::Dot(t))
    } else {
        Option::None
    }
}

/// The outcome of parsing an escape sequence from `pre`.
pub open spec fn escape_parsed<'a>(pre: TokenStream<'a>, post: TokenStream<'a>, r: Result<Escape<'a>, RegexError>) -> bool {
    let b = pre.value@;
    let len = b.len() as int;
    if !(len > 0 && b[0] == BACKSLASH) {
        r == Err::<Escape<'a>, RegexError>(
            RegexError::Pattern(PatternKind::Escape, ControlFlow::Recovable, point(pre, 0)),
        ) && rest(pre, 0, post)
    } else if len > 1 && is_letter(b[1]) {
        &&& r is Ok
        &&& letter_code(r->Ok_0) == Some(b[1])
        &&& seg(pre, 0, 2, letter_text(r->Ok_0))
        &&& rest(pre, 2, post)
    } else if len > 1 && b[1] == 0x78 {
        hex_escape_parsed(pre, post, r)
    } else if len > 1 && b[1] == 0x75 {
        unicode_escape_parsed(pre, post, r)
    } else {
        let d = skip(b, 1, ByteClass::Digit);
        if d > 1 {
            r is Ok && r->Ok_0 is BackReference && seg(pre, 0, d, r->Ok_0->BackReference_0) && rest(
                pre,
                d,
                post,
            )
        } else {
            r == Err::<Escape<'a>, RegexError>(
                RegexError::Pattern(PatternKind::Escape, ControlFlow::Recovable, range_of(pre, 0, 1)),
            ) && rest(pre, 0, post)
        }
    }
}

/// `\x` followed by exactly two hexadecimal digits; with fewer, a fatal error
/// over the digits there are.
#[verifier::opaque]
pub open spec fn hex_escape_parsed<'a>(pre: TokenStream<'a>, post: TokenStream<'a>, r: Result<Escape<'a>, RegexError>) -> bool {
    let h = skip(pre.value@, 2, ByteClass::HexDigit);
    if h >= 4 {
        &&& r is Ok && r->Ok_0 is X
        &&& seg(pre, 0, 2, letter_text(r->Ok_0))
        &&& seg(pre, 2, 4, escape_num(r->Ok_0))
        &&& rest(pre, 4, post)
    } else {
        r == Err::<Escape<'a>, RegexError>(
            RegexError::Pattern(PatternKind::HexEscape, ControlFlow::Fatal, range_of(pre, 2, h)),
        ) && rest(pre, 0, post)
    }
}

/// `\u{`, optional whitespace, hexadecimal digits, optional whitespace, `}`.
#[verifier::opaque]
pub open spec fn unicode_escape_parsed<'a>(pre: TokenStream<'a>, post: TokenStream<'a>, r: Result<Escape<'a>, RegexError>) -> bool {
    let b = pre.value@;
    let len = b.len() as int;
    let i1 = skip(b, 3, ByteClass::Space);
    let h = skip(b, i1, ByteClass::HexDigit);
    let i2 = skip(b, h, ByteClass::Space);
    if !(len > 2 && b[2] == BRACE_START) {
        r == Err::<Escape<'a>, RegexError>(
            RegexError::Pattern(PatternKind::UnicodeEscape, next_flow(b, 2), head_span(pre, 2)),
        ) && rest(pre, 0, post)
    } else if h == i1 {
        r == Err::<Escape<'a>, RegexError>(
            RegexError::Pattern(PatternKind::UnicodeEscape, ControlFlow::Fatal, range_of(pre, 0, i1)),
        ) && rest(pre, 0, post)
    } else if !(i2 < len && b[i2] == BRACE_END) {
        r == Err::<Escape<'a>, RegexError>(
            RegexError::Pattern(PatternKind::UnicodeEscape, next_flow(b, i2), head_span(pre, i2)),
        ) && rest(pre, 0, post)
    } else {
        &&& r is Ok && r->Ok_0 is Unicode
        &&& seg(pre, 0, 2, letter_text(r->Ok_0))
        &&& seg(pre, 2, 3, escape_braces(r->Ok_0).0)
        &&& seg(pre, i1, h, escape_num(r->Ok_0))
        &&& seg(pre, i2, i2 + 1, escape_braces(r->Ok_0).1)
        &&& rest(pre, i2 + 1, post)
    }
}

/// The span of an escape: its text, from the backslash to its last byte.
pub open spec fn escape_span(e: Escape) -> Span {
    match e {
        Escape::X { prefix, num } => union_of(prefix.span_of(), num.span_of()),
        Escape::Unicode { prefix, delimiter_end, .. } => union_of(
            prefix.span_of(),
            delimiter_end.span_of(),
        ),
        Escape::BackReference(t) => t.span_of(),
        _ => letter_text(e).span_of(),
    }
}

impl<'a> Syntax<'a, RegexError> for Escape<'a> {
    open spec fn parsed(pre: TokenStream<'a>, post: TokenStream<'a>, r: Result<Self, RegexError>) -> bool {
        escape_parsed(pre, post, r)
    }

    open spec fn span_spec(&self) -> Span {
        escape_span(*self)
    }

    fn parse(input: &mut TokenStream<'a>) -> (r: Result<Self, RegexError>) {
        let ghost pre = *input;
        let ghost b = pre.value@;
        proof {
            crate::pattex::bytes::lemma_rest_zero(pre);
        }
        let start = input.start();
        let is_escape = match input.first() {
            Some(c) => c == BACKSLASH,
            None => false,
        };
        if !is_escape {
            return Err(RegexError::Pattern(PatternKind::Escape, ControlFlow::Recovable, Span::Range(start, start)));
        }
        match input.get(1) {
            Some(c) => {
                if c == 0x78 {
                    let r = parse_hex_escape(input);
                    proof {
                        assert(!is_letter(c));
                    }
                    return r;
                }
                if c == 0x75 {
                    let r = parse_unicode_escape(input);
                    proof {
                        assert(!is_letter(c));
                    }
                    return r;
                }
                let mut probe = *input;
                let text = probe.split_to(2);
                match letter_escape(c, text) {
                    Some(e) => {
                        *input = probe;
                        return Ok(e);
                    },
                    None => {},
                }
            },
            None => {},
        }
        let mut after = *input;
        split_from(&mut after, 1, Ghost(pre), Ghost(0));
        let digits = take_class_from(&mut after, ByteClass::Digit, Ghost(pre), Ghost(1));
        if digits.is_empty() {
            return Err(RegexError::Pattern(PatternKind::Escape, ControlFlow::Recovable, Span::Range(start, start + 1)));
        }
        let r = split_from(input, 1 + digits.len(), Ghost(pre), Ghost(0));
        Ok(Escape::BackReference(r))
    }

    fn to_span(&self) -> (r: Span) {
        match self {
            Escape::Boundary(input) => input.to_span(),
            Escape::NonBoundary(input) => input.to_span(),
            Escape::Digit(input) => input.to_span(),
            Escape::NonDigit(input) => input.to_span(),
            Escape::PF(input) => input.to_span(),
            Escape::LF(input) => input.to_span(),
            Escape::CR(input) => input.to_span(),
            Escape::S(input) => input.to_span(),
            Escape::NonS(input) => input.to_span(),
            Escape::T(input) => input.to_span(),
            Escape::V(input) => input.to_span(),
            Escape::Word(input) => input.to_span(),
            Escape::NonWord(input) => input.to_span(),
            Escape::BackReference(input) => input.to_span(),
            Escape::X { prefix, num } => prefix.to_span().union(&num.to_span()),
            Escape::Unicode { prefix, delimiter_start: _, num: _, delimiter_end } => prefix.to_span().union(
                &delimiter_end.to_span(),
            ),
            Escape::Dot(input) => input.to_span(),
        }
    }
}

/// Parses `\xnn` from input that starts with `\x`.
fn parse_hex_escape<'a>(input: &mut TokenStream<'a>) -> (r: Result<Escape<'a>, RegexError>)
    requires
        old(input).wf(),
        old(input).value@.len() > 1,
    ensures
        final(input).wf(),
        advances(*old(input), *final(input)),
        hex_escape_parsed(*old(input), *final(input), r),
{
    let ghost pre = *input;
    let ghost b = pre.value@;
    proof {
        reveal(hex_escape_parsed);
        crate::pattex::bytes::lemma_rest_zero(pre);
        crate::pattex::bytes::lemma_skip_bounds(b, 2, ByteClass::HexDigit);
    }
    let mut probe = *input;
    let prefix = split_from(&mut probe, 2, Ghost(pre), Ghost(0));
    let mut n: usize = 0;
    let mut more = true;
    while n < 2 && more
        invariant
            b == pre.value@,
            rest(pre, 2, probe),
            probe.wf(),
            n <= 2,
            !more ==> 2 + n == skip(b, 2, ByteClass::HexDigit),
            2 + n <= skip(b, 2, ByteClass::HexDigit),
            skip(b, 2, ByteClass::HexDigit) <= b.len(),
            forall|k: int| 2 <= k < skip(b, 2, ByteClass::HexDigit) ==> in_class(ByteClass::HexDigit, b[k]),
            skip(b, 2, ByteClass::HexDigit) < b.len() ==> !in_class(ByteClass::HexDigit, b[skip(b, 2, ByteClass::HexDigit)]),
        decreases 2 - n + (if more { 1int } else { 0int }),
    {
        match probe.get(n) {
            Some(c) => {
                if is_in_class(ByteClass::HexDigit, c) {
                    n = n + 1;
                } else {
                    more = false;
                }
            },
            None => {
                more = false;
            },
        }
    }
    if n < 2 {
        return Err(RegexError::Pattern(
            PatternKind::HexEscape,
            ControlFlow::Fatal,
            Span::Range(probe.start(), probe.start() + n),
        ));
    }
    let num = split_from(&mut probe, 2, Ghost(pre), Ghost(2));
    *input = probe;
    Ok(Escape::X { prefix, num })
}

/// Parses `\u{...}` from input that starts with `\u`.
fn parse_unicode_escape<'a>(input: &mut TokenStream<'a>) -> (r: Result<Escape<'a>, RegexError>)
    requires
        old(input).wf(),
        old(input).value@.len() > 1,
    ensures
        final(input).wf(),
        advances(*old(input), *final(input)),
        unicode_escape_parsed(*old(input), *final(input), r),
{
    let ghost pre = *input;
    let ghost b = pre.value@;
    proof {
        crate::pattex::bytes::lemma_rest_zero(pre);
    }
    let mut probe = *input;
    let start = input.start();
    let prefix = split_from(&mut probe, 2, Ghost(pre), Ghost(0));
    let delimiter_start = match expect_from(
        &mut probe,
        BRACE_START,
        PatternKind::UnicodeEscape,
        false,
        Ghost(pre),
        Ghost(2),
    ) {
        Ok(t) => t,
        Err(e) => {
            proof {
                reveal(unicode_escape_parsed);
            }
            return Err(e);
        },
    };
    let ghost i1 = skip(b, 3, ByteClass::Space);
    take_class_from(&mut probe, ByteClass::Space, Ghost(pre), Ghost(3));
    let ghost h = skip(b, i1, ByteClass::HexDigit);
    let num = take_class_from(&mut probe, ByteClass::HexDigit, Ghost(pre), Ghost(i1));
    if num.is_empty() {
        let r = Err(RegexError::Pattern(PatternKind::UnicodeEscape, ControlFlow::Fatal, Span::Range(start, num.start())));
        proof {
            reveal(unicode_escape_parsed);
        }
        return r;
    }
    let ghost i2 = skip(b, h, ByteClass::Space);
    take_class_from(&mut probe, ByteClass::Space, Ghost(pre), Ghost(h));
    let delimiter_end = match expect_from(
        &mut probe,
        BRACE_END,
        PatternKind::UnicodeEscape,
        false,
        Ghost(pre),
        Ghost(i2),
    ) {
        Ok(t) => t,
        Err(e) => {
            proof {
                reveal(unicode_escape_parsed);
            }
            return Err(e);
        },
    };
    *input = probe;
    let r = Ok(Escape::Unicode { prefix, delimiter_start, num, delimiter_end });
    proof {
        reveal(unicode_escape_parsed);
    }
    r
}

/// A character of a class.
#[derive(Debug, PartialEq, Eq, PartialOrd, Ord, Clone)]
pub enum Char<'a> {
    /// A literal character.
    C { value: char, input: TokenStream<'a> },
    /// A character range `start-end`.
    Range { start: char, end: char, input: TokenStream<'a> },
    /// An escape sequence.
    Escape(Escape<'a>),
}

/// The text of a literal character or range.
pub open spec fn char_text<'a>(c: Char<'a>) -> TokenStream<'a> {
    match c {
        Char::C { input, .. } => input,
        Char::Range { input, .. } => input,
        Char::Escape(e) => letter_text(e),
    }
}

/// The outcome of parsing a literal character or a range from `pre`.
pub open spec fn plain_char_parsed<'a>(pre: TokenStream<'a>, post: TokenStream<'a>, r: Result<Char<'a>, RegexError>) -> bool {
    let b = pre.value@;
    let len = b.len() as int;
    if len == 0 {
        r == Err::<Char<'a>, RegexError>(
            RegexError::Pattern(PatternKind::Char, ControlFlow::Recovable, point(pre, 0)),
        ) && rest(pre, 0, post)
    } else if b[0] == BRACKET_END {
        r == Err::<Char<'a>, RegexError>(
            RegexError::Pattern(PatternKind::Char, ControlFlow::Recovable, range_of(pre, 0, 1)),
        ) && rest(pre, 0, post)
    } else if b[0] == MINUS {
        r == Err::<Char<'a>, RegexError>(
            RegexError::Pattern(PatternKind::Char, ControlFlow::Fatal, range_of(pre, 0, 1)),
        ) && rest(pre, 0, post)
    } else if len > 1 && b[1] == MINUS {
        if len == 2 {
            r == Err::<Char<'a>, RegexError>(
                RegexError::Pattern(PatternKind::CharRange, ControlFlow::Fatal, range_of(pre, 0, 2)),
            ) && rest(pre, 0, post)
        } else if !(b[2] > b[0]) {
            r == Err::<Char<'a>, RegexError>(
                RegexError::Pattern(PatternKind::CharRange, ControlFlow::Fatal, range_of(pre, 0, 3)),
            ) && rest(pre, 0, post)
        } else {
            &&& r is Ok && r->Ok_0 is Range
            &&& r->Ok_0->start == b[0] as char
            &&& r->Ok_0->end == b[2] as char
            &&& seg(pre, 0, 3, char_text(r->Ok_0))
            &&& rest(pre, 3, post)
        }
    } else {
        &&& r is Ok && r->Ok_0 is C
        &&& r->Ok_0->value == b[0] as char
        &&& seg(pre, 0, 1, char_text(r->Ok_0))
        &&& rest(pre, 1, post)
    }
}

/// The outcome of parsing a class character from `pre`: an escape sequence if
/// one starts there, otherwise a literal character or a range.
pub open spec fn char_parsed<'a>(pre: TokenStream<'a>, post: TokenStream<'a>, r: Result<Char<'a>, RegexError>) -> bool {
    ||| r is Ok && r->Ok_0 is Escape && escape_parsed(pre, post, Ok(r->Ok_0->Escape_0))
    ||| r is Err && crate::syntax::fails_fatally::<RegexError, Escape<'a>>(pre, r->Err_0)
    ||| crate::syntax::fails_softly::<RegexError, Escape<'a>>(pre) && plain_char_parsed(pre, post, r)
}

impl<'a> Syntax<'a, RegexError> for Char<'a> {
    open spec fn parsed(pre: TokenStream<'a>, post: TokenStream<'a>, r: Result<Self, RegexError>) -> bool {
        char_parsed(pre, post, r)
    }

    open spec fn span_spec(&self) -> Span {
        match *self {
            Char::Escape(e) => escape_span(e),
            _ => char_text(*self).span_of(),
        }
    }

    fn parse(input: &mut TokenStream<'a>) -> (r: Result<Self, RegexError>) {
        match crate::syntax::ok::<RegexError, Escape<'a>>(input) {
            Ok(Some(escape)) => {
                return Ok(Char::Escape(escape));
            },
            Ok(None) => {},
            Err(e) => {
                return Err(e);
            },
        }
        let ghost pre = *input;
        proof {
            crate::pattex::bytes::lemma_rest_zero(pre);
        }
        let start = input.start();
        let first = match input.first() {
            Some(c) => c,
            None => {
                return Err(RegexError::Pattern(PatternKind::Char, ControlFlow::Recovable, Span::Range(start, start)));
            },
        };
        if first == BRACKET_END {
            return Err(RegexError::Pattern(PatternKind::Char, ControlFlow::Recovable, Span::Range(start, start + 1)));
        }
        if first == MINUS {
            return Err(RegexError::Pattern(PatternKind::Char, ControlFlow::Fatal, Span::Range(start, start + 1)));
        }
        let dash = match input.get(1) {
            Some(c) => c == MINUS,
            None => false,
        };
        if dash {
            match input.get(2) {
                Some(last) => {
                    if !(last > first) {
                        return Err(RegexError::Pattern(
                            PatternKind::CharRange,
                            ControlFlow::Fatal,
                            Span::Range(start, start + 3),
                        ));
                    }
                    let text = split_from(input, 3, Ghost(pre), Ghost(0));
                    Ok(Char::Range { start: first as char, end: last as char, input: text })
                },
                None => Err(RegexError::Pattern(PatternKind::CharRange, ControlFlow::Fatal, Span::Range(start, start + 2))),
            }
        } else {
            let text = split_from(input, 1, Ghost(pre), Ghost(0));
            Ok(Char::C { value: first as char, input: text })
        }
    }

    fn to_span(&self) -> (r: Span) {
        match self {
            Char::C { value: _, input } => input.to_span(),
            Char::Range { start: _, end: _, input } => input.to_span(),
            Char::Escape(escape) => escape.to_span(),
        }
    }
}

/// A character class: `[`, an optional `^`, class characters, `]`.
#[derive(Debug, PartialEq, Eq, PartialOrd, Ord, Clone)]
pub struct CharClass<'a> {
    /// The opening `[`.
    pub delimiter_start: TokenStream<'a>,
    /// The negation mark `^`.
    pub negated: Option<TokenStream<'a>>,
    /// The characters of the class.
    pub chars: Vec<Char<'a>>,
    /// The closing `]`.
    pub delimiter_end: TokenStream<'a>,
}

/// `ck` is `pre` after its first `k` bytes, and parsing class characters
/// from `ck` may end at `m` with the outcome `r`.
#[verifier::opaque]
pub open spec fn chars_between<'a>(
    pre: TokenStream<'a>,
    k: int,
    ck: TokenStream<'a>,
    m: TokenStream<'a>,
    r: Result<Vec<Char<'a>>, RegexError>,
) -> bool {
    rest(pre, k, ck) && crate::syntax::many_parsed::<RegexError, Char<'a>>(ck, m, r)
}

/// Where the characters of a class start: after `[`, and after `^` if the
/// class is negated.
pub open spec fn class_body_start(b: Seq<u8>) -> int {
    if b.len() > 1 && b[1] == CARET {
        2
    } else {
        1
    }
}

/// The outcome of parsing a character class from `pre`. After `[` and an
/// optional `^` the class characters are parsed up to some cursor `m`; a `]`
/// must follow them, else the failure is fatal.
pub open spec fn class_parsed<'a>(pre: TokenStream<'a>, post: TokenStream<'a>, r: Result<CharClass<'a>, RegexError>) -> bool {
    let b = pre.value@;
    let len = b.len() as int;
    let k = class_body_start(b);
    if !(len > 0 && b[0] == BRACKET_START) {
        r == Err::<CharClass<'a>, RegexError>(
            RegexError::Pattern(PatternKind::CharClass, next_flow(b, 0), head_span(pre, 0)),
        ) && rest(pre, 0, post)
    } else {
        match r {
            Ok(cc) => {
                &&& seg(pre, 0, 1, cc.delimiter_start)
                &&& (k == 2) == (cc.negated is Some)
                &&& k == 2 ==> seg(pre, 1, 2, cc.negated->0)
                &&& exists|ck: TokenStream<'a>, m: TokenStream<'a>|
                    #[trigger] chars_between(pre, k, ck, m, Ok(cc.chars)) && m.value@.len() > 0
                        && m.value@[0] == BRACKET_END && seg(m, 0, 1, cc.delimiter_end) && rest(m, 1, post)
            },
            Err(e) => {
                ||| exists|ck: TokenStream<'a>, m: TokenStream<'a>|
                    #[trigger] chars_between(pre, k, ck, m, Err(e))
                ||| exists|ck: TokenStream<'a>, m: TokenStream<'a>, v: Vec<Char<'a>>|
                    #[trigger] chars_between(pre, k, ck, m, Ok(v)) && !(m.value@.len() > 0
                        && m.value@[0] == BRACKET_END) && e == RegexError::Pattern(
                        PatternKind::CharClass,
                        ControlFlow::Fatal,
                        head_span(m, 0),
                    )
            },
        }
    }
}

impl<'a> Syntax<'a, RegexError> for CharClass<'a> {
    open spec fn parsed(pre: TokenStream<'a>, post: TokenStream<'a>, r: Result<Self, RegexError>) -> bool {
        class_parsed(pre, post, r)
    }

    open spec fn span_spec(&self) -> Span {
        union_of(self.delimiter_start.span_of(), self.delimiter_end.span_of())
    }

    fn parse(input: &mut TokenStream<'a>) -> (r: Result<Self, RegexError>) {
        let ghost pre = *input;
        let delimiter_start = match expect(input, BRACKET_START, PatternKind::CharClass, false) {
            Ok(t) => t,
            Err(e) => {
                return Err(e);
            },
        };
        let ghost c1 = *input;
        let negated = match input.first() {
            Some(c) => {
                if c == CARET {
                    Some(input.split_to(1))
                } else {
                    Option::None
                }
            },
            None => Option::None,
        };
        let ghost ck = *input;
        proof {
            if negated is Some {
                lemma_rest_trans(pre, 1, c1, 1, ck);
                assert(negated->0.value@ =~= pre.value@.subrange(1, 2));
            } else {
                crate::pattex::bytes::lemma_rest_zero(c1);
                lemma_rest_trans(pre, 1, c1, 0, ck);
            }
        }
        let chars = match <Vec<Char<'a>> as Syntax<'a, RegexError>>::parse(input) {
            Ok(chars) => chars,
            Err(e) => {
                proof {
                    reveal(chars_between);
                    crate::lang::lemma_consumed_concat(pre, ck, *input);
                    assert(chars_between(pre, class_body_start(pre.value@), ck, *input, Err(e)));
                }
                return Err(e);
            },
        };
        let ghost m = *input;
        proof {
            reveal(chars_between);
            crate::lang::lemma_consumed_concat(pre, ck, m);
            assert(chars_between(pre, class_body_start(pre.value@), ck, m, Ok(chars)));
        }
        let delimiter_end = match expect(input, BRACKET_END, PatternKind::CharClass, true) {
            Ok(t) => t,
            Err(e) => {
                proof {
                    crate::lang::lemma_consumed_concat(pre, m, *input);
                }
                return Err(e);
            },
        };
        proof {
            crate::lang::lemma_consumed_concat(pre, m, *input);
        }
        let done: Result<Self, RegexError> = Ok(CharClass { delimiter_start, negated, chars, delimiter_end });
        proof {
            assert(done->Ok_0.chars == chars);
        }
        done
    }

    fn to_span(&self) -> (r: Span) {
        self.delimiter_start.to_span().union(&self.delimiter_end.to_span())
    }
}

} // verus!
