//! The input cursor for parsing text-based source code.
use vstd::prelude::*;

use vstd::string::StringSliceAdditionalSpecFns;

use crate::span::Span;

verus! {

/// `needle` occurs in `haystack` starting at `at`.
pub open spec fn occurs_at(haystack: Seq<u8>, needle: Seq<u8>, at: int) -> bool {
    &&& 0 <= at
    &&& at + needle.len() <= haystack.len()
    &&& haystack.subrange(at, at + needle.len()) == needle
}

/// `needle` first occurs in `haystack` at `at`, or, for `None`, nowhere.
pub open spec fn first_occurrence(haystack: Seq<u8>, needle: Seq<u8>, r: Option<usize>) -> bool {
    match r {
        Some(at) => occurs_at(haystack, needle, at as int) && forall|j: int|
            0 <= j < at ==> !occurs_at(haystack, needle, j),
        None => forall|j: int| !occurs_at(haystack, needle, j),
    }
}

/// Relies on memchr::memmem::find: the index of the first occurrence of
/// `needle` in `haystack`, or `None` when it does not occur.
#[verifier::external_body]
fn memmem_find(haystack: &[u8], needle: &[u8]) -> (r: Option<usize>)
    ensures
        first_occurrence(haystack@, needle@, r),
{
    memchr::memmem::find(haystack, needle)
}

/// A cursor over source text: the bytes not yet consumed and the absolute
/// offset of the first of them. Copies share the underlying buffer.
#[derive(Debug, PartialEq, Eq, PartialOrd, Ord, Hash, Clone, Copy)]
pub struct TokenStream<'a> {
    /// Offset of this segment in the whole source.
    pub offset: usize,
    /// The bytes of this segment.
    pub value: &'a [u8],
}

/// `post` is what remains of `pre` after a prefix of it was consumed.
pub open spec fn advances(pre: TokenStream, post: TokenStream) -> bool {
    &&& pre.offset <= post.offset
    &&& post.offset - pre.offset <= pre.value@.len()
    &&& post.value@ == pre.value@.subrange(post.offset - pre.offset, pre.value@.len() as int)
}

/// The bytes consumed in going from `pre` to `post`.
pub open spec fn consumed(pre: TokenStream, post: TokenStream) -> Seq<u8> {
    pre.value@.subrange(0, post.offset - pre.offset)
}

impl<'a> TokenStream<'a> {
    /// The segment's end offset fits in a `usize`.
    pub open spec fn wf(&self) -> bool {
        self.offset + self.value@.len() <= usize::MAX
    }

    /// The bytes of this segment.
    pub open spec fn bytes(&self) -> Seq<u8> {
        self.value@
    }

    /// The span this segment covers (its end clamped to `usize::MAX`).
    pub open spec fn span_of(&self) -> Span {
        if self.wf() {
            Span::Range(self.offset, (self.offset + self.value@.len()) as usize)
        } else {
            Span::Range(self.offset, usize::MAX)
        }
    }

    /// The span of the first `n` bytes of this segment.
    pub open spec fn span_at(&self, n: int) -> Span {
        Span::Range(self.offset, (self.offset + n) as usize)
    }

    /// A cursor over the whole of `s`, at offset 0.
    pub fn new(s: &'a str) -> (r: Self)
        ensures
            r.offset == 0,
            r.value@ == s.spec_bytes(),
            r.wf(),
    {
        let value = s.as_bytes();
        let _n: usize = value.len();
        TokenStream { offset: 0, value }
    }

    /// A cursor over `s`, placed at `offset` in a larger source.
    pub fn at(offset: usize, s: &'a str) -> (r: Self)
        ensures
            r.offset == offset,
            r.value@ == s.spec_bytes(),
    {
        TokenStream { offset, value: s.as_bytes() }
    }

    /// Number of bytes in this segment.
    pub fn len(&self) -> (r: usize)
        ensures
            r == self.value@.len(),
    {
        self.value.len()
    }

    /// The segment holds no bytes.
    pub fn is_empty(&self) -> (r: bool)
        ensures
            r == (self.value@.len() == 0),
    {
        self.value.len() == 0
    }

    /// Absolute offset of the segment's first byte.
    pub fn start(&self) -> (r: usize)
        ensures
            r == self.offset,
    {
        self.offset
    }

    /// Absolute offset just past the segment's last byte.
    pub fn end(&self) -> (r: usize)
        requires
            self.wf(),
        ensures
            r == self.offset + self.value@.len(),
    {
        self.offset + self.value.len()
    }

    /// The span this segment covers.
    pub fn to_span(&self) -> (r: Span)
        ensures
            r == self.span_of(),
    {
        let len = self.value.len();
        if self.offset <= usize::MAX - len {
            Span::Range(self.offset, self.offset + len)
        } else {
            Span::Range(self.offset, usize::MAX)
        }
    }

    /// The span of the first `n` bytes of this segment.
    pub fn to_span_at(&self, n: usize) -> (r: Span)
        requires
            self.wf(),
            n <= self.value@.len(),
        ensures
            r == self.span_at(n as int),
    {
        Span::Range(self.offset, self.offset + n)
    }

    /// The bytes of this segment.
    pub fn as_bytes(&self) -> (r: &'a [u8])
        ensures
            r@ == self.value@,
    {
        self.value
    }

    /// The first byte, if any.
    pub fn first(&self) -> (r: Option<u8>)
        ensures
            r == (if self.value@.len() > 0 { Some(self.value@[0]) } else { Option::None }),
    {
        if self.value.len() > 0 {
            Some(self.value[0])
        } else {
            Option::None
        }
    }

    /// The byte at index `i` of the segment, if any.
    pub fn get(&self, i: usize) -> (r: Option<u8>)
        ensures
            r == (if i < self.value@.len() { Some(self.value@[i as int]) } else { Option::None }),
    {
        if i < self.value.len() {
            Some(self.value[i])
        } else {
            Option::None
        }
    }

    /// Splits off the first `at` bytes and returns them; `self` keeps the rest.
    pub fn split_to(&mut self, at: usize) -> (r: Self)
        requires
            old(self).wf(),
            at <= old(self).value@.len(),
        ensures
            r.offset == old(self).offset,
            r.value@ == old(self).value@.subrange(0, at as int),
            final(self).offset == old(self).offset + at,
            final(self).value@ == old(self).value@.subrange(at as int, old(self).value@.len() as int),
            final(self).wf(),
            r.wf(),
            advances(*old(self), *final(self)),
            r.value@ + final(self).value@ == old(self).value@,
    {
        let first = vstd::slice::slice_subrange(self.value, 0, at);
        let last = vstd::slice::slice_subrange(self.value, at, self.value.len());
        let offset = self.offset;
        self.value = last;
        self.offset = offset + at;
        proof {
            assert(first@ + last@ =~= old(self).value@);
        }
        TokenStream { offset, value: first }
    }

    /// Keeps the first `at` bytes in `self` and returns the rest.
    pub fn split_off(&mut self, at: usize) -> (r: Self)
        requires
            old(self).wf(),
            at <= old(self).value@.len(),
        ensures
            final(self).offset == old(self).offset,
            final(self).value@ == old(self).value@.subrange(0, at as int),
            r.offset == old(self).offset + at,
            r.value@ == old(self).value@.subrange(at as int, old(self).value@.len() as int),
            final(self).wf(),
            r.wf(),
            advances(*old(self), r),
    {
        let first = vstd::slice::slice_subrange(self.value, 0, at);
        let last = vstd::slice::slice_subrange(self.value, at, self.value.len());
        self.value = first;
        TokenStream { offset: self.offset + at, value: last }
    }

    /// If the segment starts with `needle`, the number of bytes it spans.
    pub fn starts_with(&self, needle: &[u8]) -> (r: Option<usize>)
        ensures
            r == (if needle@.len() <= self.value@.len() && self.value@.subrange(0, needle@.len() as int) == needle@ {
                Some(needle@.len() as usize)
            } else {
                Option::None
            }),
    {
        if needle.len() > self.value.len() {
            return Option::None;
        }
        let mut i: usize = 0;
        while i < needle.len()
            invariant
                i <= needle@.len() <= self.value@.len(),
                forall|j: int| 0 <= j < i ==> self.value@[j] == needle@[j],
            decreases needle@.len() - i,
        {
            if self.value[i] != needle[i] {
                proof {
                    assert(self.value@.subrange(0, needle@.len() as int)[i as int] != needle@[i as int]);
                }
                return Option::None;
            }
            i = i + 1;
        }
        proof {
            assert(self.value@.subrange(0, needle@.len() as int) =~= needle@);
        }
        Some(needle.len())
    }

    /// Offset within the segment of the first occurrence of `needle`.
    pub fn find(&self, needle: &[u8]) -> (r: Option<usize>)
        ensures
            first_occurrence(self.value@, needle@, r),
    {
        memmem_find(self.value, needle)
    }
}

/// A cursor that consumed nothing has advanced from itself.
pub proof fn lemma_advances_refl(c: TokenStream)
    ensures
        advances(c, c),
{
    assert(c.value@.subrange(0, c.value@.len() as int) =~= c.value@);
}

/// Consuming `pre` up to `mid` and then up to `post` is consuming it up to
/// `post`: the pieces consumed follow one another with nothing dropped or
/// repeated, and with what remains they make up the whole input.
pub proof fn lemma_consumed_concat(pre: TokenStream, mid: TokenStream, post: TokenStream)
    requires
        advances(pre, mid),
        advances(mid, post),
    ensures
        advances(pre, post),
        consumed(pre, mid) + consumed(mid, post) == consumed(pre, post),
        consumed(pre, post) + post.value@ == pre.value@,
        mid.offset == pre.offset + consumed(pre, mid).len(),
        post.offset == mid.offset + consumed(mid, post).len(),
{
    let a = mid.offset - pre.offset;
    let b = post.offset - mid.offset;
    assert(post.value@ =~= pre.value@.subrange(a + b, pre.value@.len() as int));
    assert(consumed(pre, mid) + consumed(mid, post) =~= consumed(pre, post));
    assert(consumed(pre, post) + post.value@ =~= pre.value@);
}

/// The bytes consumed between successive cursors of `cs`, concatenated.
pub open spec fn consumed_along(cs: Seq<TokenStream>) -> Seq<u8>
    decreases cs.len(),
{
    if cs.len() < 2 {
        Seq::empty()
    } else {
        consumed_along(cs.drop_last()) + consumed(cs[cs.len() - 2], cs[cs.len() - 1])
    }
}

/// Along a chain of cursors, each advanced from the one before (as the nodes
/// parsed one after another leave them), the pieces consumed follow one
/// another: together they are exactly what was consumed from the first cursor
/// to the last, and with what remains they make up the whole input.
pub proof fn lemma_chain_coverage(cs: Seq<TokenStream>)
    requires
        cs.len() > 0,
        forall|i: int| 0 <= i < cs.len() - 1 ==> advances(#[trigger] cs[i], cs[i + 1]),
    ensures
        advances(cs[0], cs[cs.len() - 1]),
        consumed_along(cs) == consumed(cs[0], cs[cs.len() - 1]),
        consumed_along(cs) + cs[cs.len() - 1].value@ == cs[0].value@,
    decreases cs.len(),
{
    if cs.len() == 1 {
        lemma_advances_refl(cs[0]);
        assert(consumed(cs[0], cs[0]) =~= Seq::<u8>::empty());
        assert(cs[0].value@.subrange(0, 0) + cs[0].value@ =~= cs[0].value@);
    } else {
        let front = cs.drop_last();
        assert forall|i: int| 0 <= i < front.len() - 1 implies advances(#[trigger] front[i], front[i + 1]) by {
            assert(front[i] == cs[i] && front[i + 1] == cs[i + 1]);
        }
        lemma_chain_coverage(front);
        let n = cs.len();
        assert(advances(cs[n - 2], cs[n - 1]));
        lemma_consumed_concat(cs[0], cs[n - 2], cs[n - 1]);
    }
}

impl<'a> From<&'a str> for TokenStream<'a> {
    fn from(value: &'a str) -> Self {
        TokenStream::new(value)
    }
}

impl<'a> vstd::std_specs::convert::FromSpecImpl<&'a str> for TokenStream<'a> {
    open spec fn obeys_from_spec() -> bool {
        false
    }

    open spec fn from_spec(v: &'a str) -> Self {
        arbitrary()
    }
}

impl<'a> From<(usize, &'a str)> for TokenStream<'a> {
    fn from(value: (usize, &'a str)) -> Self {
        TokenStream::at(value.0, value.1)
    }
}

impl<'a> vstd::std_specs::convert::FromSpecImpl<(usize, &'a str)> for TokenStream<'a> {
    open spec fn obeys_from_spec() -> bool {
        false
    }

    open spec fn from_spec(v: (usize, &'a str)) -> Self {
        arbitrary()
    }
}

} // verus!
