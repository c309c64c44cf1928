//! Digit sequences of the token-based pattern grammar.
use vstd::prelude::*;

use crate::errors::ControlFlow;
use crate::lang::{advances, TokenStream};
use crate::pattex::bytes::{
    decimal, decimal_value, in_class, is_in_class, rest, seg, skip, split_from, take_class, ByteClass,
};
use crate::pattex::errors::{CompileError, RegexError};
use crate::pattex::pattern::{point, range_of};
use crate::span::Span;
use crate::syntax::Syntax;

verus! {

/// A non-empty digit sequence and its value.
#[derive(Debug, PartialEq, Eq, PartialOrd, Ord, Clone, Copy)]
pub struct Digits<'a> {
    /// The value of the digits.
    pub value: u64,
    /// The digits.
    pub input: TokenStream<'a>,
}

/// The outcome of parsing digits from `pre`: the longest run of digits and its
/// value; a recoverable error at the start if there is none, a fatal one over
/// the digits if the value exceeds `u64::MAX`.
pub open spec fn digits_parsed<'a>(pre: TokenStream<'a>, post: TokenStream<'a>, r: Result<Digits<'a>, RegexError>) -> bool {
    let n = skip(pre.value@, 0, ByteClass::Digit);
    let value = decimal(pre.value@.subrange(0, n));
    if n == 0 {
        r == Err::<Digits<'a>, RegexError>(
            RegexError::Compile(CompileError::Digits, ControlFlow::Recovable, point(pre, 0)),
        ) && rest(pre, 0, post)
    } else if value > u64::MAX {
        r == Err::<Digits<'a>, RegexError>(
            RegexError::Compile(CompileError::Digits, ControlFlow::Fatal, range_of(pre, 0, n)),
        )
    } else {
        r is Ok && r->Ok_0.value == value && seg(pre, 0, n, r->Ok_0.input) && rest(pre, n, post)
    }
}

impl<'a> Syntax<'a, RegexError> for Digits<'a> {
    open spec fn parsed(pre: TokenStream<'a>, post: TokenStream<'a>, r: Result<Self, RegexError>) -> bool {
        digits_parsed(pre, post, r)
    }

    open spec fn span_spec(&self) -> Span {
        self.input.span_of()
    }

    fn parse(input: &mut TokenStream<'a>) -> (r: Result<Self, RegexError>) {
        let ghost pre = *input;
        let start = input.start();
        let content = take_class(input, ByteClass::Digit);
        if content.is_empty() {
            return Err(RegexError::Compile(CompileError::Digits, ControlFlow::Recovable, Span::Range(start, start)));
        }
        proof {
            crate::pattex::bytes::lemma_skip_bounds(pre.value@, 0, ByteClass::Digit);
            assert(content.value@ =~= pre.value@.subrange(0, content.value@.len() as int));
        }
        match decimal_value(content.as_bytes()) {
            Some(value) => Ok(Digits { value, input: content }),
            None => Err(RegexError::Compile(CompileError::Digits, ControlFlow::Fatal, content.to_span())),
        }
    }

    fn to_span(&self) -> (r: Span) {
        self.input.to_span()
    }
}

/// Takes at most `max` leading bytes of the class `c`.
fn take_at_most<'a>(input: &mut TokenStream<'a>, c: ByteClass, max: usize) -> (r: TokenStream<'a>)
    requires
        old(input).wf(),
    ensures
        final(input).wf(),
        advances(*old(input), *final(input)),
        r.value@.len() == if skip(old(input).value@, 0, c) < max {
            skip(old(input).value@, 0, c)
        } else {
            max as int
        },
        seg(*old(input), 0, r.value@.len() as int, r),
        rest(*old(input), r.value@.len() as int, *final(input)),
{
    let ghost pre = *input;
    proof {
        crate::pattex::bytes::lemma_rest_zero(pre);
        crate::pattex::bytes::lemma_skip_bounds(pre.value@, 0, c);
    }
    let len = input.len();
    let mut n: usize = 0;
    while n < len && n < max && is_in_class(c, input.value[n])
        invariant
            *input == pre,
            len == pre.value@.len(),
            n <= len,
            n <= max,
            n <= skip(pre.value@, 0, c),
            forall|k: int| 0 <= k < skip(pre.value@, 0, c) ==> in_class(c, pre.value@[k]),
            skip(pre.value@, 0, c) <= len,
            skip(pre.value@, 0, c) < len ==> !in_class(c, pre.value@[skip(pre.value@, 0, c)]),
        decreases len - n,
    {
        n = n + 1;
    }
    split_from(input, n, Ghost(pre), Ghost(0))
}

/// Exactly `L` leading bytes of the class `c`, else a recoverable error over
/// the bytes of the class there are.
pub open spec fn fixed_parsed<'a>(
    pre: TokenStream<'a>,
    post: TokenStream<'a>,
    r: Result<TokenStream<'a>, RegexError>,
    c: ByteClass,
    len: usize,
) -> bool {
    let h = skip(pre.value@, 0, c);
    if h >= len {
        r is Ok && seg(pre, 0, len as int, r->Ok_0) && rest(pre, len as int, post)
    } else {
        r == Err::<TokenStream<'a>, RegexError>(
            RegexError::Compile(CompileError::Digits, ControlFlow::Recovable, range_of(pre, 0, h)),
        )
    }
}

/// Parses exactly `len` bytes of the class `c`.
fn parse_fixed<'a>(input: &mut TokenStream<'a>, c: ByteClass, len: usize) -> (r: Result<TokenStream<'a>, RegexError>)
    requires
        old(input).wf(),
    ensures
        final(input).wf(),
        advances(*old(input), *final(input)),
        fixed_parsed(*old(input), *final(input), r, c, len),
{
    let taken = take_at_most(input, c, len);
    if taken.len() < len {
        return Err(RegexError::Compile(CompileError::Digits, ControlFlow::Recovable, taken.to_span()));
    }
    Ok(taken)
}

/// Exactly `L` decimal digits.
#[derive(Debug, PartialEq, Eq, PartialOrd, Ord, Clone)]
pub struct FixedDigits<'a, const L: usize>(pub TokenStream<'a>);

impl<'a, const L: usize> Syntax<'a, RegexError> for FixedDigits<'a, L> {
    open spec fn parsed(pre: TokenStream<'a>, post: TokenStream<'a>, r: Result<Self, RegexError>) -> bool {
        fixed_parsed(
            pre,
            post,
            match r {
                Ok(d) => Ok(d.0),
                Err(e) => Err(e),
            },
            ByteClass::Digit,
            L,
        )
    }

    open spec fn span_spec(&self) -> Span {
        self.0.span_of()
    }

    fn parse(input: &mut TokenStream<'a>) -> (r: Result<Self, RegexError>) {
        match parse_fixed(input, ByteClass::Digit, L) {
            Ok(t) => Ok(FixedDigits(t)),
            Err(e) => Err(e),
        }
    }

    fn to_span(&self) -> (r: Span) {
        self.0.to_span()
    }
}

/// Exactly `L` hexadecimal digits.
#[derive(Debug, PartialEq, Eq, PartialOrd, Ord, Clone)]
pub struct FixedHexDigits<'a, const L: usize>(pub TokenStream<'a>);

impl<'a, const L: usize> Syntax<'a, RegexError> for FixedHexDigits<'a, L> {
    open spec fn parsed(pre: TokenStream<'a>, post: TokenStream<'a>, r: Result<Self, RegexError>) -> bool {
        fixed_parsed(
            pre,
            post,
            match r {
                Ok(d) => Ok(d.0),
                Err(e) => Err(e),
            },
            ByteClass::HexDigit,
            L,
        )
    }

    open spec fn span_spec(&self) -> Span {
        self.0.span_of()
    }

    fn parse(input: &mut TokenStream<'a>) -> (r: Result<Self, RegexError>) {
        match parse_fixed(input, ByteClass::HexDigit, L) {
            Ok(t) => Ok(FixedHexDigits(t)),
            Err(e) => Err(e),
        }
    }

    fn to_span(&self) -> (r: Span) {
        self.0.to_span()
    }
}

} // verus!
