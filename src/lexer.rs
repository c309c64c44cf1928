//! Parser combinators for tokenizers and lexers.
use vstd::prelude::*;

use crate::errors::{ControlFlow, Kind, ParseError};
use crate::lang::TokenStream;

verus! {

/// `head` holds the first `n` bytes of `pre` and `rest` the bytes after them.
pub open spec fn split_at_spec(pre: TokenStream, n: int, head: TokenStream, rest: TokenStream) -> bool {
    &&& 0 <= n <= pre.value@.len()
    &&& head.offset == pre.offset
    &&& head.value@ == pre.value@.subrange(0, n)
    &&& rest.offset == pre.offset + n
    &&& rest.value@ == pre.value@.subrange(n, pre.value@.len() as int)
}

/// The outcome of `next` for `item` from `pre`: the first byte if it is
/// `item`; else an incomplete error at the end of input or a recoverable one
/// on the byte, leaving the cursor where it was.
pub open spec fn next_parsed<'a, E: ParseError>(
    pre: TokenStream<'a>,
    post: TokenStream<'a>,
    r: Result<TokenStream<'a>, E>,
    item: u8,
) -> bool {
    if pre.value@.len() == 0 {
        r == Err::<TokenStream<'a>, E>(
            E::from_kind_spec(Kind::Next(ControlFlow::Incomplete, pre.span_at(0))),
        ) && post == pre
    } else if pre.value@[0] == item {
        r is Ok && split_at_spec(pre, 1, r->Ok_0, post)
    } else {
        r == Err::<TokenStream<'a>, E>(
            E::from_kind_spec(Kind::Next(ControlFlow::Recovable, pre.span_at(1))),
        ) && post == pre
    }
}

/// The outcome of `keyword` for `literal` from `pre`.
pub open spec fn keyword_parsed<'a, E: ParseError>(
    pre: TokenStream<'a>,
    post: TokenStream<'a>,
    r: Result<TokenStream<'a>, E>,
    literal: Seq<u8>,
) -> bool {
    let n = literal.len();
    if n <= pre.value@.len() && pre.value@.subrange(0, n as int) == literal {
        r is Ok && split_at_spec(pre, n as int, r->Ok_0, post)
    } else {
        r == Err::<TokenStream<'a>, E>(
            E::from_kind_spec(Kind::Keyword(ControlFlow::Recovable, pre.span_of())),
        ) && post == pre
    }
}

/// Matches the next byte against `item`.
///
/// At the end of input this fails as incomplete, with an empty span; on another
/// byte it fails as recoverable, with the span of that byte. Failures leave the
/// cursor where it was.
pub fn next<'a, E: ParseError>(input: &mut TokenStream<'a>, item: u8) -> (r: Result<TokenStream<'a>, E>)
    requires
        old(input).wf(),
    ensures
        final(input).wf(),
        crate::lang::advances(*old(input), *final(input)),
        next_parsed::<E>(*old(input), *final(input), r, item),
        old(input).value@.len() == 0 ==> r == Err::<TokenStream<'a>, E>(
            E::from_kind_spec(Kind::Next(ControlFlow::Incomplete, old(input).span_at(0))),
        ) && *final(input) == *old(input),
        old(input).value@.len() > 0 && old(input).value@[0] == item ==> r is Ok && split_at_spec(
            *old(input),
            1,
            r->Ok_0,
            *final(input),
        ),
        old(input).value@.len() > 0 && old(input).value@[0] != item ==> r == Err::<TokenStream<'a>, E>(
            E::from_kind_spec(Kind::Next(ControlFlow::Recovable, old(input).span_at(1))),
        ) && *final(input) == *old(input),
{
    proof {
        crate::lang::lemma_advances_refl(*input);
    }
    match input.first() {
        Some(next) => {
            if next == item {
                Ok(input.split_to(1))
            } else {
                Err(E::from_kind(Kind::Next(ControlFlow::Recovable, input.to_span_at(1))))
            }
        },
        None => Err(E::from_kind(Kind::Next(ControlFlow::Incomplete, input.to_span_at(0)))),
    }
}

/// Matches the next byte against the predicate `f`.
///
/// At the end of input this fails as incomplete, with an empty span; on a byte
/// that `f` rejects it fails as recoverable, with the span of that byte.
/// Failures leave the cursor where it was.
pub fn next_if<'a, E: ParseError, F: FnOnce(u8) -> bool>(input: &mut TokenStream<'a>, f: F) -> (r: Result<
    TokenStream<'a>,
    E,
>)
    requires
        old(input).wf(),
        forall|b: u8| f.requires((b,)),
    ensures
        final(input).wf(),
        old(input).value@.len() == 0 ==> r == Err::<TokenStream<'a>, E>(
            E::from_kind_spec(Kind::NextIf(ControlFlow::Incomplete, old(input).span_at(0))),
        ) && *final(input) == *old(input),
        old(input).value@.len() > 0 ==> {
            ||| r is Ok && f.ensures((old(input).value@[0],), true) && split_at_spec(
                *old(input),
                1,
                r->Ok_0,
                *final(input),
            )
            ||| r == Err::<TokenStream<'a>, E>(
                E::from_kind_spec(Kind::NextIf(ControlFlow::Recovable, old(input).span_at(1))),
            ) && f.ensures((old(input).value@[0],), false) && *final(input) == *old(input)
        },
{
    match input.first() {
        Some(next) => {
            if f(next) {
                Ok(input.split_to(1))
            } else {
                Err(E::from_kind(Kind::NextIf(ControlFlow::Recovable, input.to_span_at(1))))
            }
        },
        None => Err(E::from_kind(Kind::NextIf(ControlFlow::Incomplete, input.to_span_at(0)))),
    }
}

/// Matches the keyword `literal` at the start of the input.
///
/// This is a plain prefix match: what follows the keyword is not looked at.
/// On a mismatch it fails as recoverable and leaves the cursor where it was.
pub fn keyword<'a, E: ParseError>(input: &mut TokenStream<'a>, literal: &[u8]) -> (r: Result<TokenStream<'a>, E>)
    requires
        old(input).wf(),
    ensures
        final(input).wf(),
        crate::lang::advances(*old(input), *final(input)),
        keyword_parsed::<E>(*old(input), *final(input), r, literal@),
        ({
            let pre = *old(input);
            let n = literal@.len();
            if n <= pre.value@.len() && pre.value@.subrange(0, n as int) == literal@ {
                r is Ok && split_at_spec(pre, n as int, r->Ok_0, *final(input))
            } else {
                r == Err::<TokenStream<'a>, E>(
                    E::from_kind_spec(Kind::Keyword(ControlFlow::Recovable, pre.span_of())),
                ) && *final(input) == pre
            }
        }),
{
    proof {
        crate::lang::lemma_advances_refl(*input);
    }
    match input.starts_with(literal) {
        Some(len) => Ok(input.split_to(len)),
        None => Err(E::from_kind(Kind::Keyword(ControlFlow::Recovable, input.to_span()))),
    }
}

/// `c` can continue an identifier: an ASCII letter, digit or `_`.
pub open spec fn word_byte(c: u8) -> bool {
    (0x30 <= c <= 0x39) || (0x41 <= c <= 0x5a) || (0x61 <= c <= 0x7a) || c == 0x5f
}

/// Matches the keyword `literal` as a whole word: like `keyword`, but a match
/// followed by a byte that can continue an identifier fails.
pub fn keyword_word<'a, E: ParseError>(input: &mut TokenStream<'a>, literal: &[u8]) -> (r: Result<
    TokenStream<'a>,
    E,
>)
    requires
        old(input).wf(),
    ensures
        final(input).wf(),
        crate::lang::advances(*old(input), *final(input)),
        ({
            let pre = *old(input);
            let n = literal@.len();
            if n <= pre.value@.len() && pre.value@.subrange(0, n as int) == literal@ && (n
                == pre.value@.len() || !word_byte(pre.value@[n as int])) {
                r is Ok && split_at_spec(pre, n as int, r->Ok_0, *final(input))
            } else {
                r == Err::<TokenStream<'a>, E>(
                    E::from_kind_spec(Kind::Keyword(ControlFlow::Recovable, pre.span_of())),
                ) && *final(input) == pre
            }
        }),
{
    proof {
        crate::lang::lemma_advances_refl(*input);
    }
    let n = literal.len();
    let bounded = match input.get(n) {
        Some(c) => !((0x30 <= c && c <= 0x39) || (0x41 <= c && c <= 0x5a) || (0x61 <= c && c <= 0x7a)
            || c == 0x5f),
        None => true,
    };
    match input.starts_with(literal) {
        Some(len) => {
            if bounded {
                Ok(input.split_to(len))
            } else {
                Err(E::from_kind(Kind::Keyword(ControlFlow::Recovable, input.to_span())))
            }
        },
        None => Err(E::from_kind(Kind::Keyword(ControlFlow::Recovable, input.to_span()))),
    }
}

/// Takes the input up to the first occurrence of `needle`, which stays in
/// the input. Where `needle` does not occur the outcome depends on input not
/// yet seen: this fails as incomplete, over the whole input, and consumes
/// nothing.
pub fn take_until<'a, E: ParseError>(input: &mut TokenStream<'a>, needle: &[u8]) -> (r: Result<TokenStream<'a>, E>)
    requires
        old(input).wf(),
    ensures
        final(input).wf(),
        crate::lang::advances(*old(input), *final(input)),
        match r {
            Ok(t) => {
                &&& crate::lang::first_occurrence(old(input).value@, needle@, Some(t.value@.len() as usize))
                &&& split_at_spec(*old(input), t.value@.len() as int, t, *final(input))
            },
            Err(e) => {
                &&& crate::lang::first_occurrence(old(input).value@, needle@, Option::None)
                &&& e == E::from_kind_spec(Kind::TakeUntil(ControlFlow::Incomplete, old(input).span_of()))
                &&& *final(input) == *old(input)
            },
        },
{
    proof {
        crate::lang::lemma_advances_refl(*input);
    }
    match input.find(needle) {
        Some(offset) => Ok(input.split_to(offset)),
        None => Err(E::from_kind(Kind::TakeUntil(ControlFlow::Incomplete, input.to_span()))),
    }
}

/// Takes the longest prefix whose bytes all satisfy `cond`. Never fails.
pub fn take_while<'a, E: ParseError, F: FnMut(u8) -> bool>(input: &mut TokenStream<'a>, mut cond: F) -> (r: Result<
    TokenStream<'a>,
    E,
>)
    requires
        old(input).wf(),
        forall|b: u8| cond.requires((b,)),
    ensures
        final(input).wf(),
        r is Ok,
        ({
            let pre = *old(input);
            let n = r->Ok_0.value@.len();
            &&& split_at_spec(pre, n as int, r->Ok_0, *final(input))
            &&& forall|i: int| 0 <= i < n ==> cond.ensures((pre.value@[i],), true)
            &&& n < pre.value@.len() ==> cond.ensures((pre.value@[n as int],), false)
        }),
{
    let ghost initial = cond;
    let mut offset: usize = 0;
    let mut stop = false;
    let len = input.len();
    while offset < len && !stop
        invariant
            cond == initial,
            len == input.value@.len(),
            offset <= len,
            forall|b: u8| initial.requires((b,)),
            forall|i: int| 0 <= i < offset ==> initial.ensures((input.value@[i],), true),
            stop ==> offset < len && initial.ensures((input.value@[offset as int],), false),
        decreases len - offset + (if stop { 0int } else { 1int }),
    {
        let next = input.value[offset];
        if !cond(next) {
            stop = true;
        } else {
            offset = offset + 1;
        }
    }
    Ok(input.split_to(offset))
}

/// Takes the longest prefix none of whose bytes satisfies `cond`. Never fails.
pub fn take_till<'a, E: ParseError, F: FnMut(u8) -> bool>(input: &mut TokenStream<'a>, mut cond: F) -> (r: Result<
    TokenStream<'a>,
    E,
>)
    requires
        old(input).wf(),
        forall|b: u8| cond.requires((b,)),
    ensures
        final(input).wf(),
        r is Ok,
        ({
            let pre = *old(input);
            let n = r->Ok_0.value@.len();
            &&& split_at_spec(pre, n as int, r->Ok_0, *final(input))
            &&& forall|i: int| 0 <= i < n ==> cond.ensures((pre.value@[i],), false)
            &&& n < pre.value@.len() ==> cond.ensures((pre.value@[n as int],), true)
        }),
{
    let ghost initial = cond;
    let mut offset: usize = 0;
    let mut stop = false;
    let len = input.len();
    while offset < len && !stop
        invariant
            cond == initial,
            len == input.value@.len(),
            offset <= len,
            forall|b: u8| initial.requires((b,)),
            forall|i: int| 0 <= i < offset ==> initial.ensures((input.value@[i],), false),
            stop ==> offset < len && initial.ensures((input.value@[offset as int],), true),
        decreases len - offset + (if stop { 0int } else { 1int }),
    {
        let next = input.value[offset];
        if cond(next) {
            stop = true;
        } else {
            offset = offset + 1;
        }
    }
    Ok(input.split_to(offset))
}

} // verus!
