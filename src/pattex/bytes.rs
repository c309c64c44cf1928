//! Byte classes and scanning over them, for the pattern grammars.
use vstd::prelude::*;

use crate::lang::TokenStream;

verus! {

pub const BACKSLASH: u8 = 0x5c;
pub const CARET: u8 = 0x5e;
pub const BRACE_START: u8 = 0x7b;
pub const BRACE_END: u8 = 0x7d;
pub const BRACKET_START: u8 = 0x5b;
pub const BRACKET_END: u8 = 0x5d;
pub const PAREN_START: u8 = 0x28;
pub const PAREN_END: u8 = 0x29;
pub const PIPE: u8 = 0x7c;
pub const QUESTION: u8 = 0x3f;
pub const DOT: u8 = 0x2e;
pub const PLUS: u8 = 0x2b;
pub const MINUS: u8 = 0x2d;
pub const STAR: u8 = 0x2a;
pub const DOLLAR: u8 = 0x24;
pub const COMMA: u8 = 0x2c;
pub const EQUALS: u8 = 0x3d;

/// The numeric value of a sequence of decimal digits.
pub open spec fn decimal(s: Seq<u8>) -> nat
    decreases s.len(),
{
    if s.len() == 0 {
        0
    } else {
        decimal(s.drop_last()) * 10 + (s.last() - 0x30) as nat
    }
}

/// The value of a sequence of decimal digits, or `None` if it exceeds `u64::MAX`.
pub fn decimal_value(s: &[u8]) -> (r: Option<u64>)
    requires
        forall|k: int| 0 <= k < s@.len() ==> in_class(ByteClass::Digit, #[trigger] s@[k]),
    ensures
        match r {
            Some(v) => v == decimal(s@),
            None => decimal(s@) > u64::MAX,
        },
{
    let mut v: u64 = 0;
    let mut i: usize = 0;
    while i < s.len()
        invariant
            i <= s@.len(),
            v == decimal(s@.subrange(0, i as int)),
            forall|k: int| 0 <= k < s@.len() ==> in_class(ByteClass::Digit, #[trigger] s@[k]),
        decreases s@.len() - i,
    {
        proof {
            assert(s@.subrange(0, i + 1).drop_last() =~= s@.subrange(0, i as int));
        }
        let d = (s[i] - 0x30) as u64;
        match v.checked_mul(10) {
            Some(t) => match t.checked_add(d) {
                Some(u) => {
                    v = u;
                },
                None => {
                    proof {
                        lemma_decimal_prefix_bound(s@, i as int + 1);
                    }
                    return Option::None;
                },
            },
            None => {
                proof {
                    lemma_decimal_prefix_bound(s@, i as int + 1);
                }
                return Option::None;
            },
        }
        i = i + 1;
    }
    proof {
        assert(s@.subrange(0, s@.len() as int) =~= s@);
    }
    Some(v)
}

/// A number never gets smaller when digits are appended to it.
pub proof fn lemma_decimal_prefix_bound(s: Seq<u8>, i: int)
    requires
        0 <= i <= s.len(),
        forall|k: int| 0 <= k < s.len() ==> in_class(ByteClass::Digit, #[trigger] s[k]),
    ensures
        decimal(s.subrange(0, i)) <= decimal(s),
    decreases s.len() - i,
{
    if i < s.len() {
        lemma_decimal_prefix_bound(s, i + 1);
        assert(s.subrange(0, i + 1).drop_last() =~= s.subrange(0, i));
    } else {
        assert(s.subrange(0, i) =~= s);
    }
}

/// A class of ASCII bytes.
#[derive(Debug, PartialEq, Eq, Structural, Clone, Copy)]
pub enum ByteClass {
    /// `0`-`9`.
    Digit,
    /// `0`-`9`, `a`-`f`, `A`-`F`.
    HexDigit,
    /// Space, tab, line feed, form feed, carriage return.
    Space,
    /// `a`-`z`, `A`-`Z`.
    Alpha,
    /// Bytes with no meaning of their own in a pattern.
    Plain,
    /// Bytes of literal pattern text: plain bytes and `-`.
    Text,
}

/// `c` has a meaning of its own in a pattern.
pub open spec fn token_char(c: u8) -> bool {
    c == BACKSLASH || c == PIPE || c == CARET || c == DOLLAR || c == STAR || c == PLUS || c == MINUS
        || c == QUESTION || c == BRACE_START || c == BRACKET_START || c == BRACKET_END || c == DOT
        || c == EQUALS || c == PAREN_START || c == PAREN_END
}

/// Tests whether `c` has a meaning of its own in a pattern.
pub fn is_token_char(c: u8) -> (r: bool)
    ensures
        r == token_char(c),
{
    c == BACKSLASH || c == PIPE || c == CARET || c == DOLLAR || c == STAR || c == PLUS || c == MINUS
        || c == QUESTION || c == BRACE_START || c == BRACKET_START || c == BRACKET_END || c == DOT
        || c == EQUALS || c == PAREN_START || c == PAREN_END
}

/// `b` belongs to the class `c`.
pub open spec fn in_class(c: ByteClass, b: u8) -> bool {
    match c {
        ByteClass::Digit => 0x30 <= b <= 0x39,
        ByteClass::HexDigit => (0x30 <= b <= 0x39) || (0x41 <= b <= 0x46) || (0x61 <= b <= 0x66),
        ByteClass::Space => b == 0x20 || b == 0x09 || b == 0x0a || b == 0x0c || b == 0x0d,
        ByteClass::Alpha => (0x41 <= b <= 0x5a) || (0x61 <= b <= 0x7a),
        ByteClass::Plain => !token_char(b),
        ByteClass::Text => b == MINUS || !token_char(b),
    }
}

/// Tests whether `b` belongs to the class `c`.
pub fn is_in_class(c: ByteClass, b: u8) -> (r: bool)
    ensures
        r == in_class(c, b),
{
    match c {
        ByteClass::Digit => 0x30 <= b && b <= 0x39,
        ByteClass::HexDigit => (0x30 <= b && b <= 0x39) || (0x41 <= b && b <= 0x46) || (0x61 <= b
            && b <= 0x66),
        ByteClass::Space => b == 0x20 || b == 0x09 || b == 0x0a || b == 0x0c || b == 0x0d,
        ByteClass::Alpha => (0x41 <= b && b <= 0x5a) || (0x61 <= b && b <= 0x7a),
        ByteClass::Plain => !is_token_char(b),
        ByteClass::Text => b == MINUS || !is_token_char(b),
    }
}

/// The first index at or after `i` whose byte is not in the class `c`.
pub open spec fn skip(s: Seq<u8>, i: int, c: ByteClass) -> int
    decreases s.len() - i,
{
    if 0 <= i < s.len() && in_class(c, s[i]) {
        skip(s, i + 1, c)
    } else {
        i
    }
}

/// The bytes from `i` up to `n` are in the class and the byte at `n` (if any)
/// is not: `skip` stops at `n`.
pub proof fn lemma_skip(s: Seq<u8>, i: int, n: int, c: ByteClass)
    requires
        0 <= i <= n <= s.len(),
        forall|k: int| i <= k < n ==> in_class(c, s[k]),
        n < s.len() ==> !in_class(c, s[n]),
    ensures
        skip(s, i, c) == n,
    decreases n - i,
{
    if i < n {
        lemma_skip(s, i + 1, n, c);
    }
}

/// `skip` never moves backwards nor past the end, and every byte it passes
/// over is in the class.
pub proof fn lemma_skip_bounds(s: Seq<u8>, i: int, c: ByteClass)
    requires
        0 <= i <= s.len(),
    ensures
        i <= skip(s, i, c) <= s.len(),
        forall|k: int| i <= k < skip(s, i, c) ==> in_class(c, s[k]),
        skip(s, i, c) < s.len() ==> !in_class(c, s[skip(s, i, c)]),
    decreases s.len() - i,
{
    if i < s.len() && in_class(c, s[i]) {
        lemma_skip_bounds(s, i + 1, c);
    }
}

/// `ts` holds bytes `i..j` of `pre`, at their absolute offset.
pub open spec fn seg(pre: TokenStream, i: int, j: int, ts: TokenStream) -> bool {
    &&& 0 <= i <= j <= pre.value@.len()
    &&& ts.offset == pre.offset + i
    &&& ts.value@ == pre.value@.subrange(i, j)
}

/// `post` is what remains of `pre` after its first `i` bytes.
pub open spec fn rest(pre: TokenStream, i: int, post: TokenStream) -> bool {
    &&& 0 <= i <= pre.value@.len()
    &&& post.offset == pre.offset + i
    &&& post.value@ == pre.value@.subrange(i, pre.value@.len() as int)
}

/// Takes the longest prefix of bytes in the class `c`. Never fails.
pub fn take_class<'a>(input: &mut TokenStream<'a>, c: ByteClass) -> (r: TokenStream<'a>)
    requires
        old(input).wf(),
    ensures
        final(input).wf(),
        r.wf(),
        r.value@.len() == skip(old(input).value@, 0, c),
        seg(*old(input), 0, r.value@.len() as int, r),
        rest(*old(input), r.value@.len() as int, *final(input)),
        crate::lang::advances(*old(input), *final(input)),
{
    let ghost pre = *input;
    let len = input.len();
    let mut n: usize = 0;
    while n < len && is_in_class(c, input.value[n])
        invariant
            *input == pre,
            len == pre.value@.len(),
            n <= len,
            forall|k: int| 0 <= k < n ==> in_class(c, pre.value@[k]),
        decreases len - n,
    {
        n = n + 1;
    }
    proof {
        lemma_skip(pre.value@, 0, n as int, c);
    }
    input.split_to(n)
}

/// Skipping within what remains after index `i` is skipping from `i`.
pub proof fn lemma_skip_shift(s: Seq<u8>, i: int, c: ByteClass)
    requires
        0 <= i <= s.len(),
    ensures
        skip(s.subrange(i, s.len() as int), 0, c) == skip(s, i, c) - i,
{
    lemma_skip_bounds(s, i, c);
    let t = s.subrange(i, s.len() as int);
    lemma_skip(t, 0, skip(s, i, c) - i, c);
}

/// A cursor `cur` that is `pre` after `i` bytes, then `k` more bytes consumed,
/// is `pre` after `i + k` bytes.
pub proof fn lemma_rest_trans(pre: TokenStream, i: int, cur: TokenStream, k: int, next: TokenStream)
    requires
        rest(pre, i, cur),
        rest(cur, k, next),
    ensures
        rest(pre, i + k, next),
{
    assert(next.value@ =~= pre.value@.subrange(i + k, pre.value@.len() as int));
}

/// A segment of what remains of `pre` after `i` bytes is a segment of `pre`.
pub proof fn lemma_seg_shift(pre: TokenStream, i: int, cur: TokenStream, j0: int, j1: int, ts: TokenStream)
    requires
        rest(pre, i, cur),
        seg(cur, j0, j1, ts),
    ensures
        seg(pre, i + j0, i + j1, ts),
{
    assert(ts.value@ =~= pre.value@.subrange(i + j0, i + j1));
}

/// A cursor is what remains of itself after nothing was consumed.
pub proof fn lemma_rest_zero(pre: TokenStream)
    ensures
        rest(pre, 0, pre),
        crate::lang::advances(pre, pre),
{
    assert(pre.value@.subrange(0, pre.value@.len() as int) =~= pre.value@);
}

/// Two cursors that are both what remains of `pre`, the second further on:
/// the second advanced from the first.
pub proof fn lemma_rest_advances(pre: TokenStream, i: int, a: TokenStream, j: int, b: TokenStream)
    requires
        rest(pre, i, a),
        rest(pre, j, b),
        i <= j,
    ensures
        crate::lang::advances(a, b),
{
    assert(b.value@ =~= a.value@.subrange(j - i, a.value@.len() as int));
}

/// Takes the longest run of bytes in the class `c` from `input`, which is
/// `pre` after its first `i` bytes.
pub(crate) fn take_class_from<'a>(
    input: &mut TokenStream<'a>,
    c: ByteClass,
    Ghost(pre): Ghost<TokenStream<'a>>,
    Ghost(i): Ghost<int>,
) -> (r: TokenStream<'a>)
    requires
        old(input).wf(),
        rest(pre, i, *old(input)),
    ensures
        final(input).wf(),
        r.wf(),
        i <= skip(pre.value@, i, c) <= pre.value@.len(),
        seg(pre, i, skip(pre.value@, i, c), r),
        rest(pre, skip(pre.value@, i, c), *final(input)),
        crate::lang::advances(*old(input), *final(input)),
{
    let ghost cur = *input;
    let r = take_class(input, c);
    proof {
        lemma_skip_shift(pre.value@, i, c);
        lemma_skip_bounds(pre.value@, i, c);
        lemma_rest_trans(pre, i, cur, r.value@.len() as int, *input);
        assert(r.value@ =~= pre.value@.subrange(i, skip(pre.value@, i, c)));
    }
    r
}

/// Splits `n` bytes off `input`, which is `pre` after its first `i` bytes.
pub(crate) fn split_from<'a>(
    input: &mut TokenStream<'a>,
    n: usize,
    Ghost(pre): Ghost<TokenStream<'a>>,
    Ghost(i): Ghost<int>,
) -> (r: TokenStream<'a>)
    requires
        old(input).wf(),
        rest(pre, i, *old(input)),
        n <= old(input).value@.len(),
    ensures
        final(input).wf(),
        r.wf(),
        seg(pre, i, i + n, r),
        rest(pre, i + n, *final(input)),
        crate::lang::advances(*old(input), *final(input)),
{
    let ghost cur = *input;
    let r = input.split_to(n);
    proof {
        lemma_rest_trans(pre, i, cur, n as int, *input);
        assert(r.value@ =~= pre.value@.subrange(i, i + n));
    }
    r
}

} // verus!
