//! Abstract syntax tree support: the `Syntax` protocol and its generic nodes.
use vstd::prelude::*;

use crate::errors::{ControlFlow, Kind, ParseError};
use crate::lang::{advances, TokenStream};
use crate::span::{union_of, Span};

verus! {

/// A syntax tree node that can be parsed from a cursor.
pub trait Syntax<'a, E: ParseError>: Sized {
    /// Parsing from `pre` may end with the cursor at `post` and the outcome `r`.
    spec fn parsed(pre: TokenStream<'a>, post: TokenStream<'a>, r: Result<Self, E>) -> bool;

    /// The span of this node.
    spec fn span_spec(&self) -> Span;

    /// Parses a node from the input, advancing the cursor past what it consumed.
    fn parse(input: &mut TokenStream<'a>) -> (r: Result<Self, E>)
        requires
            old(input).wf(),
        ensures
            final(input).wf(),
            advances(*old(input), *final(input)),
            Self::parsed(*old(input), *final(input), r),
    ;

    /// The span of this node.
    fn to_span(&self) -> (r: Span)
        ensures
            r == self.span_spec(),
    ;
}

/// Parsing `T` from `pre` may fail with an error that is not fatal.
pub open spec fn fails_softly<'a, E: ParseError, T: Syntax<'a, E>>(pre: TokenStream<'a>) -> bool {
    exists|m: TokenStream<'a>, e: E| T::parsed(pre, m, Err(e)) && e.flow() != ControlFlow::Fatal
}

/// Parsing `T` from `pre` may fail with the fatal error `e`.
pub open spec fn fails_fatally<'a, E: ParseError, T: Syntax<'a, E>>(pre: TokenStream<'a>, e: E) -> bool {
    e.flow() == ControlFlow::Fatal && exists|m: TokenStream<'a>| T::parsed(pre, m, Err(e))
}

/// The outcome of trying `T` speculatively: a success, `None` with the cursor
/// untouched after a failure that is not fatal, or a fatal failure.
pub open spec fn optional_parsed<'a, E: ParseError, T: Syntax<'a, E>>(
    pre: TokenStream<'a>,
    post: TokenStream<'a>,
    r: Result<Option<T>, E>,
) -> bool {
    match r {
        Ok(Some(v)) => T::parsed(pre, post, Ok(v)),
        Ok(None) => post == pre && fails_softly::<E, T>(pre),
        Err(e) => fails_fatally::<E, T>(pre, e),
    }
}

/// Tries `T` on a copy of the cursor. A failure that is not fatal becomes
/// `Ok(None)` and leaves the cursor where it was; a fatal one is returned.
pub fn ok<'a, E: ParseError, T: Syntax<'a, E>>(input: &mut TokenStream<'a>) -> (r: Result<Option<T>, E>)
    requires
        old(input).wf(),
    ensures
        final(input).wf(),
        advances(*old(input), *final(input)),
        optional_parsed::<E, T>(*old(input), *final(input), r),
{
    let mut attempt = *input;
    proof {
        crate::lang::lemma_advances_refl(*input);
    }
    match T::parse(&mut attempt) {
        Ok(t) => {
            *input = attempt;
            Ok(Some(t))
        },
        Err(err) => {
            if err.control_flow() == ControlFlow::Fatal {
                Err(err)
            } else {
                proof {
                    assert(T::parsed(*old(input), attempt, Err(err)));
                }
                Ok(Option::None)
            }
        },
    }
}

/// Parses `T` and raises any failure to fatal.
pub fn fatal<'a, E: ParseError, T: Syntax<'a, E>>(input: &mut TokenStream<'a>) -> (r: Result<T, E>)
    requires
        old(input).wf(),
    ensures
        final(input).wf(),
        advances(*old(input), *final(input)),
        match r {
            Ok(v) => T::parsed(*old(input), *final(input), Ok(v)),
            Err(e) => e.flow() == ControlFlow::Fatal && exists|e0: E|
                T::parsed(*old(input), *final(input), Err(e0)) && e == e0.made_fatal() && e.spot() == e0.spot(),
        },
{
    match T::parse(input) {
        Ok(v) => Ok(v),
        Err(err) => Err(err.into_fatal()),
    }
}

impl<'a, E: ParseError, T: Syntax<'a, E>> Syntax<'a, E> for Option<T> {
    open spec fn parsed(pre: TokenStream<'a>, post: TokenStream<'a>, r: Result<Self, E>) -> bool {
        optional_parsed::<E, T>(pre, post, r)
    }

    open spec fn span_spec(&self) -> Span {
        match self {
            Some(v) => v.span_spec(),
            None => Span::Empty,
        }
    }

    fn parse(input: &mut TokenStream<'a>) -> (r: Result<Self, E>) {
        ok::<E, T>(input)
    }

    fn to_span(&self) -> (r: Span) {
        match self {
            Some(v) => v.to_span(),
            None => Span::Empty,
        }
    }
}

impl<'a, E: ParseError, T: Syntax<'a, E>> Syntax<'a, E> for Box<T> {
    open spec fn parsed(pre: TokenStream<'a>, post: TokenStream<'a>, r: Result<Self, E>) -> bool {
        match r {
            Ok(b) => T::parsed(pre, post, Ok(*b)),
            Err(e) => T::parsed(pre, post, Err(e)),
        }
    }

    open spec fn span_spec(&self) -> Span {
        (**self).span_spec()
    }

    fn parse(input: &mut TokenStream<'a>) -> (r: Result<Self, E>) {
        match T::parse(input) {
            Ok(v) => Ok(Box::new(v)),
            Err(e) => Err(e),
        }
    }

    fn to_span(&self) -> (r: Span) {
        (**self).to_span()
    }
}

/// `cs` are the cursors between the successive nodes `items`, each parsed from
/// the one before and each advanced from `pre`: from `pre` to `post`.
pub open spec fn chain<'a, E: ParseError, T: Syntax<'a, E>>(
    pre: TokenStream<'a>,
    post: TokenStream<'a>,
    items: Seq<T>,
    cs: Seq<TokenStream<'a>>,
) -> bool {
    &&& cs.len() == items.len() + 1
    &&& cs[0] == pre
    &&& cs[items.len() as int] == post
    &&& forall|i: int| 0 <= i <= items.len() ==> advances(pre, #[trigger] cs[i])
    &&& forall|i: int| 0 <= i < items.len() ==> T::parsed(cs[i], cs[i + 1], Ok(#[trigger] items[i]))
}

/// `items` were parsed one after another through the cursors `cs`, and the
/// repetition ended at `post`: there `T` fails without being fatal, or the
/// last node consumed nothing.
pub open spec fn many_ended<'a, E: ParseError, T: Syntax<'a, E>>(
    pre: TokenStream<'a>,
    post: TokenStream<'a>,
    items: Seq<T>,
    cs: Seq<TokenStream<'a>>,
) -> bool {
    &&& chain::<E, T>(pre, post, items, cs)
    &&& fails_softly::<E, T>(post) || (items.len() > 0 && cs[items.len() - 1].offset == post.offset)
}

/// `items` were parsed one after another through the cursors `cs`, and then
/// `T` failed fatally with `e` where they ended.
pub open spec fn many_failed<'a, E: ParseError, T: Syntax<'a, E>>(
    pre: TokenStream<'a>,
    items: Seq<T>,
    cs: Seq<TokenStream<'a>>,
    e: E,
) -> bool {
    &&& chain::<E, T>(pre, cs[items.len() as int], items, cs)
    &&& fails_fatally::<E, T>(cs[items.len() as int], e)
}

/// The outcome of parsing `T` as many times as it matches: the nodes parsed
/// one after another, stopping where `T` fails without being fatal (or after a
/// node that consumed nothing, which would otherwise match forever); or, where
/// `T` fails fatally after some nodes, that failure.
pub open spec fn many_parsed<'a, E: ParseError, T: Syntax<'a, E>>(
    pre: TokenStream<'a>,
    post: TokenStream<'a>,
    r: Result<Vec<T>, E>,
) -> bool {
    match r {
        Ok(v) => exists|cs: Seq<TokenStream<'a>>| #[trigger] many_ended::<E, T>(pre, post, v@, cs),
        Err(e) => exists|items: Seq<T>, cs: Seq<TokenStream<'a>>| #[trigger] many_failed::<E, T>(pre, items, cs, e),
    }
}

/// The span from the first to the last of `items`.
pub open spec fn seq_span<'a, E: ParseError, T: Syntax<'a, E>>(items: Seq<T>) -> Span {
    if items.len() == 0 {
        Span::Empty
    } else {
        union_of(items[0].span_spec(), items[items.len() - 1].span_spec())
    }
}

impl<'a, E: ParseError, T: Syntax<'a, E>> Syntax<'a, E> for Vec<T> {
    open spec fn parsed(pre: TokenStream<'a>, post: TokenStream<'a>, r: Result<Self, E>) -> bool {
        many_parsed::<E, T>(pre, post, r)
    }

    open spec fn span_spec(&self) -> Span {
        seq_span::<E, T>(self@)
    }

    fn parse(input: &mut TokenStream<'a>) -> (r: Result<Self, E>) {
        let ghost pre = *input;
        let mut elms: Vec<T> = Vec::new();
        let ghost mut cs: Seq<TokenStream<'a>> = seq![*input];
        proof {
            crate::lang::lemma_advances_refl(*input);
        }
        loop
            invariant
                pre == *old(input),
                input.wf(),
                pre.wf(),
                advances(pre, *input),
                chain::<E, T>(pre, *input, elms@, cs),
            decreases input.value@.len(),
        {
            let ghost before = *input;
            let before_len = input.len();
            let step = ok::<E, T>(input);
            proof {
                crate::lang::lemma_consumed_concat(pre, before, *input);
            }
            match step {
                Err(e) => {
                    let done: Result<Self, E> = Err(e);
                    proof {
                        assert(many_failed::<E, T>(pre, elms@, cs, e));
                        assert(done->Err_0 == e);
                        assert(many_failed::<E, T>(pre, elms@, cs, done->Err_0));
                        assert(exists|items: Seq<T>, cs2: Seq<TokenStream<'a>>|
                            #[trigger] many_failed::<E, T>(pre, items, cs2, done->Err_0));
                    }
                    return done;
                },
                Ok(None) => {
                    proof {
                        assert(many_ended::<E, T>(pre, *input, elms@, cs));
                        let done: Result<Vec<T>, E> = Ok(elms);
                        assert(done->Ok_0@ == elms@);
                    }
                    return Ok(elms);
                },
                Ok(Some(elm)) => {
                    // A node that consumed nothing would match forever.
                    let stuck = input.len() == before_len;
                    let ghost old_elms = elms@;
                    elms.push(elm);
                    proof {
                        let old_cs = cs;
                        cs = cs.push(*input);
                        assert forall|i: int| 0 <= i <= elms@.len() implies advances(pre, #[trigger] cs[i]) by {
                            if i < old_cs.len() {
                                assert(cs[i] == old_cs[i]);
                            }
                        }
                        assert forall|i: int| 0 <= i < elms@.len() implies T::parsed(
                            cs[i],
                            cs[i + 1],
                            Ok(#[trigger] elms@[i]),
                        ) by {
                            if i < old_elms.len() {
                                assert(elms@[i] == old_elms[i]);
                                assert(cs[i] == old_cs[i] && cs[i + 1] == old_cs[i + 1]);
                            }
                        }
                        assert(chain::<E, T>(pre, *input, elms@, cs));
                    }
                    if stuck {
                        proof {
                            assert(many_ended::<E, T>(pre, *input, elms@, cs));
                        let done: Result<Vec<T>, E> = Ok(elms);
                        assert(done->Ok_0@ == elms@);
                        }
                        return Ok(elms);
                    }
                },
            }
        }
    }

    fn to_span(&self) -> (r: Span) {
        if self.len() == 0 {
            Span::Empty
        } else {
            let first = self[0].to_span();
            let last = self[self.len() - 1].to_span();
            first.union(&last)
        }
    }
}

/// The node parsed first, then the second one from where the first stopped.
impl<'a, E: ParseError, A: Syntax<'a, E>, B: Syntax<'a, E>> Syntax<'a, E> for (A, B) {
    open spec fn parsed(pre: TokenStream<'a>, post: TokenStream<'a>, r: Result<Self, E>) -> bool {
        match r {
            Ok((a, b)) => exists|m: TokenStream<'a>|
                #[trigger] A::parsed(pre, m, Ok(a)) && B::parsed(m, post, Ok(b)),
            Err(e) => A::parsed(pre, post, Err(e)) || exists|m: TokenStream<'a>, a: A|
                #[trigger] A::parsed(pre, m, Ok(a)) && B::parsed(m, post, Err(e)),
        }
    }

    open spec fn span_spec(&self) -> Span {
        union_of(self.0.span_spec(), self.1.span_spec())
    }

    fn parse(input: &mut TokenStream<'a>) -> (r: Result<Self, E>) {
        let ghost pre = *input;
        let a = match A::parse(input) {
            Ok(a) => a,
            Err(e) => {
                return Err(e);
            },
        };
        let ghost mid = *input;
        match B::parse(input) {
            Ok(b) => {
                proof {
                    crate::lang::lemma_consumed_concat(pre, mid, *input);
                }
                let done: Result<Self, E> = Ok((a, b));
                proof {
                    assert(done->Ok_0.0 == a && done->Ok_0.1 == b);
                    assert(A::parsed(pre, mid, Ok(done->Ok_0.0)));
                }
                done
            },
            Err(e) => {
                proof {
                    crate::lang::lemma_consumed_concat(pre, mid, *input);
                    assert(A::parsed(pre, mid, Ok(a)));
                }
                Err(e)
            },
        }
    }

    fn to_span(&self) -> (r: Span) {
        self.0.to_span().union(&self.1.to_span())
    }
}

/// A syntax body between a start and an end token.
#[derive(Debug, PartialEq, Eq, PartialOrd, Ord, Clone)]
pub struct Delimiter<Start, End, Body> {
    /// The start token.
    pub start: Start,
    /// The end token.
    pub end: End,
    /// The body.
    pub body: Body,
}

/// The start token was parsed from `pre` to `m1`, the body from `m1` to `m2`
/// and the end token from `m2` to `post`.
pub open spec fn delimited<'a, E: ParseError, Start: Syntax<'a, E>, End: Syntax<'a, E>, Body: Syntax<'a, E>>(
    pre: TokenStream<'a>,
    m1: TokenStream<'a>,
    m2: TokenStream<'a>,
    post: TokenStream<'a>,
    d: Delimiter<Start, End, Body>,
) -> bool {
    &&& Start::parsed(pre, m1, Ok(d.start))
    &&& Body::parsed(m1, m2, Ok(d.body))
    &&& End::parsed(m2, post, Ok(d.end))
}

/// After the start token matched at `m1`, the body or the end token failed
/// with `e0`, and the error returned is `e0` made fatal.
pub open spec fn delimited_failed<'a, E: ParseError, End: Syntax<'a, E>, Body: Syntax<'a, E>>(
    m1: TokenStream<'a>,
    post: TokenStream<'a>,
    e0: E,
) -> bool {
    ||| Body::parsed(m1, post, Err(e0))
    ||| exists|m2: TokenStream<'a>, b: Body|
        #[trigger] Body::parsed(m1, m2, Ok(b)) && End::parsed(m2, post, Err(e0))
}

impl<'a, E: ParseError, Start: Syntax<'a, E>, End: Syntax<'a, E>, Body: Syntax<'a, E>> Syntax<'a, E> for Delimiter<
    Start,
    End,
    Body,
> {
    /// The start token must match; once it has, any failure of the body or
    /// the end token is fatal.
    open spec fn parsed(pre: TokenStream<'a>, post: TokenStream<'a>, r: Result<Self, E>) -> bool {
        match r {
            Ok(d) => exists|m1: TokenStream<'a>, m2: TokenStream<'a>|
                #[trigger] delimited::<E, Start, End, Body>(pre, m1, m2, post, d),
            Err(e) => {
                ||| Start::parsed(pre, post, Err(e))
                ||| exists|m1: TokenStream<'a>, s: Start, e0: E|
                    #[trigger] Start::parsed(pre, m1, Ok(s)) && #[trigger] delimited_failed::<E, End, Body>(
                        m1,
                        post,
                        e0,
                    ) && e == e0.made_fatal() && e.flow() == ControlFlow::Fatal && e.spot() == e0.spot()
            },
        }
    }

    open spec fn span_spec(&self) -> Span {
        union_of(self.start.span_spec(), self.end.span_spec())
    }

    fn parse(input: &mut TokenStream<'a>) -> (r: Result<Self, E>) {
        let ghost pre = *input;
        let start = match Start::parse(input) {
            Ok(s) => s,
            Err(e) => {
                return Err(e);
            },
        };
        let ghost m1 = *input;
        let body = match fatal::<E, Body>(input) {
            Ok(b) => b,
            Err(e) => {
                proof {
                    crate::lang::lemma_consumed_concat(pre, m1, *input);
                    let e0 = choose|e0: E| Body::parsed(m1, *input, Err(e0)) && e == e0.made_fatal() && e.spot() == e0.spot();
                    assert(delimited_failed::<E, End, Body>(m1, *input, e0));
                }
                return Err(e);
            },
        };
        let ghost m2 = *input;
        proof {
            crate::lang::lemma_consumed_concat(pre, m1, m2);
        }
        let end = match fatal::<E, End>(input) {
            Ok(t) => t,
            Err(e) => {
                proof {
                    crate::lang::lemma_consumed_concat(pre, m2, *input);
                    let e0 = choose|e0: E| End::parsed(m2, *input, Err(e0)) && e == e0.made_fatal() && e.spot() == e0.spot();
                    assert(Body::parsed(m1, m2, Ok(body)));
                    assert(delimited_failed::<E, End, Body>(m1, *input, e0));
                }
                return Err(e);
            },
        };
        proof {
            crate::lang::lemma_consumed_concat(pre, m2, *input);
        }
        let d = Delimiter { start, body, end };
        let done: Result<Self, E> = Ok(d);
        proof {
            assert(done->Ok_0 == d);
            assert(delimited::<E, Start, End, Body>(pre, m1, m2, *input, d));
        }
        done
    }

    fn to_span(&self) -> (r: Span) {
        self.start.to_span().union(&self.end.to_span())
    }
}

/// Tries the first syntax; after a failure that is not fatal, parses the
/// second one from the same place, with no further fallback.
#[derive(Debug, PartialEq, Eq, PartialOrd, Ord, Clone)]
pub enum Or<F, S> {
    First(F),
    Second(S),
}

impl<'a, E: ParseError, F: Syntax<'a, E>, S: Syntax<'a, E>> Syntax<'a, E> for Or<F, S> {
    open spec fn parsed(pre: TokenStream<'a>, post: TokenStream<'a>, r: Result<Self, E>) -> bool {
        match r {
            Ok(Or::First(f)) => F::parsed(pre, post, Ok(f)),
            Ok(Or::Second(s)) => fails_softly::<E, F>(pre) && S::parsed(pre, post, Ok(s)),
            Err(e) => fails_fatally::<E, F>(pre, e) || (fails_softly::<E, F>(pre) && S::parsed(
                pre,
                post,
                Err(e),
            )),
        }
    }

    open spec fn span_spec(&self) -> Span {
        match self {
            Or::First(v) => v.span_spec(),
            Or::Second(v) => v.span_spec(),
        }
    }

    fn parse(input: &mut TokenStream<'a>) -> (r: Result<Self, E>) {
        match ok::<E, F>(input) {
            Ok(Some(first)) => Ok(Or::First(first)),
            Ok(None) => match S::parse(input) {
                Ok(s) => Ok(Or::Second(s)),
                Err(e) => Err(e),
            },
            Err(e) => Err(e),
        }
    }

    fn to_span(&self) -> (r: Span) {
        match self {
            Or::First(v) => v.to_span(),
            Or::Second(v) => v.to_span(),
        }
    }
}

/// The number of positions a span covers, where that is known: none for an
/// empty span, the width of a range, or the end of a range bounded above.
pub open spec fn span_len(s: Span) -> Option<nat> {
    match s {
        Span::Empty => Some(0),
        Span::Range(lo, hi) => Some(if hi > lo { (hi - lo) as nat } else { 0 }),
        Span::RangeTo(hi) => Some(hi as nat),
        _ => Option::None,
    }
}

/// Measures a span as `span_len` does.
pub fn measure(s: Span) -> (r: Option<usize>)
    ensures
        match r {
            Some(n) => span_len(s) == Some(n as nat),
            None => span_len(s) is None,
        },
{
    match s {
        Span::Empty => Some(0),
        Span::Range(lo, hi) => Some(if hi > lo { hi - lo } else { 0 }),
        Span::RangeTo(hi) => Some(hi),
        _ => Option::None,
    }
}

/// Parsing a bounded node: `T` parsed and its length `ok` to keep; otherwise
/// the failure of `T`, or the bound's own recoverable error `bound_err`,
/// reported at the position before `T` was parsed.
pub open spec fn bounded_parsed<'a, E: ParseError, T: Syntax<'a, E>>(
    pre: TokenStream<'a>,
    post: TokenStream<'a>,
    r: Result<T, E>,
    fits: spec_fn(nat) -> bool,
    bound_err: E,
) -> bool {
    match r {
        Ok(t) => T::parsed(pre, post, Ok(t)) && span_len(t.span_spec()) is Some && fits(
            span_len(t.span_spec())->0,
        ),
        Err(e) => T::parsed(pre, post, Err(e)) || (e == bound_err && exists|t: T|
            #[trigger] T::parsed(pre, post, Ok(t)) && !(span_len(t.span_spec()) is Some && fits(
                span_len(t.span_spec())->0,
            ))),
    }
}

/// A node whose span is at most `N` long.
#[derive(Debug, PartialEq, Eq, PartialOrd, Ord, Clone)]
pub struct LimitsTo<T, const N: usize>(pub T);

impl<'a, E: ParseError, T: Syntax<'a, E>, const N: usize> Syntax<'a, E> for LimitsTo<T, N> {
    open spec fn parsed(pre: TokenStream<'a>, post: TokenStream<'a>, r: Result<Self, E>) -> bool {
        bounded_parsed::<E, T>(
            pre,
            post,
            match r {
                Ok(l) => Ok(l.0),
                Err(e) => Err(e),
            },
            |n: nat| n <= N,
            E::from_kind_spec(Kind::LimitsTo(ControlFlow::Recovable, pre.span_of())),
        )
    }

    open spec fn span_spec(&self) -> Span {
        self.0.span_spec()
    }

    fn parse(input: &mut TokenStream<'a>) -> (r: Result<Self, E>) {
        let start = input.to_span();
        let t = match T::parse(input) {
            Ok(t) => t,
            Err(e) => {
                return Err(e);
            },
        };
        match measure(t.to_span()) {
            Some(len) => {
                if len > N {
                    return Err(E::from_kind(Kind::LimitsTo(ControlFlow::Recovable, start)));
                }
            },
            None => {
                return Err(E::from_kind(Kind::LimitsTo(ControlFlow::Recovable, start)));
            },
        }
        Ok(LimitsTo(t))
    }

    fn to_span(&self) -> (r: Span) {
        self.0.to_span()
    }
}

/// A node whose span is at least `LOWER` and less than `HIGHER` long.
#[derive(Debug, PartialEq, Eq, PartialOrd, Ord, Clone)]
pub struct Limits<T, const LOWER: usize, const HIGHER: usize>(pub T);

impl<'a, E: ParseError, T: Syntax<'a, E>, const LOWER: usize, const HIGHER: usize> Syntax<'a, E> for Limits<
    T,
    LOWER,
    HIGHER,
> {
    open spec fn parsed(pre: TokenStream<'a>, post: TokenStream<'a>, r: Result<Self, E>) -> bool {
        bounded_parsed::<E, T>(
            pre,
            post,
            match r {
                Ok(l) => Ok(l.0),
                Err(e) => Err(e),
            },
            |n: nat| LOWER <= n < HIGHER,
            E::from_kind_spec(Kind::Limits(ControlFlow::Recovable, pre.span_of())),
        )
    }

    open spec fn span_spec(&self) -> Span {
        self.0.span_spec()
    }

    fn parse(input: &mut TokenStream<'a>) -> (r: Result<Self, E>) {
        let start = input.to_span();
        let t = match T::parse(input) {
            Ok(t) => t,
            Err(e) => {
                return Err(e);
            },
        };
        match measure(t.to_span()) {
            Some(len) => {
                if len < LOWER || !(len < HIGHER) {
                    return Err(E::from_kind(Kind::Limits(ControlFlow::Recovable, start)));
                }
            },
            None => {
                return Err(E::from_kind(Kind::Limits(ControlFlow::Recovable, start)));
            },
        }
        Ok(Limits(t))
    }

    fn to_span(&self) -> (r: Span) {
        self.0.to_span()
    }
}

/// A node whose span is at least `LOWER` long.
#[derive(Debug, PartialEq, Eq, PartialOrd, Ord, Clone)]
pub struct LimitsFrom<T, const LOWER: usize>(pub T);

impl<'a, E: ParseError, T: Syntax<'a, E>, const LOWER: usize> Syntax<'a, E> for LimitsFrom<T, LOWER> {
    open spec fn parsed(pre: TokenStream<'a>, post: TokenStream<'a>, r: Result<Self, E>) -> bool {
        bounded_parsed::<E, T>(
            pre,
            post,
            match r {
                Ok(l) => Ok(l.0),
                Err(e) => Err(e),
            },
            |n: nat| LOWER <= n,
            E::from_kind_spec(Kind::LimitsFrom(ControlFlow::Recovable, pre.span_of())),
        )
    }

    open spec fn span_spec(&self) -> Span {
        self.0.span_spec()
    }

    fn parse(input: &mut TokenStream<'a>) -> (r: Result<Self, E>) {
        let start = input.to_span();
        let t = match T::parse(input) {
            Ok(t) => t,
            Err(e) => {
                return Err(e);
            },
        };
        match measure(t.to_span()) {
            Some(len) => {
                if len < LOWER {
                    return Err(E::from_kind(Kind::LimitsFrom(ControlFlow::Recovable, start)));
                }
            },
            None => {
                return Err(E::from_kind(Kind::LimitsFrom(ControlFlow::Recovable, start)));
            },
        }
        Ok(LimitsFrom(t))
    }

    fn to_span(&self) -> (r: Span) {
        self.0.to_span()
    }
}

/// A sequence of `T` separated by punctuation `P`.
#[derive(Debug, PartialEq, Eq, PartialOrd, Ord, Clone)]
pub struct Punctuated<T, P> {
    /// The `(T, P)` pairs.
    pub pairs: Vec<(T, P)>,
    /// A last `T` with no punctuation after it.
    pub tail: Option<Box<T>>,
}

/// The pairs were parsed one after another: pair `i` runs from `cs[i]` through
/// `ms[i]` (between its `T` and its `P`) to `cs[i + 1]`.
pub open spec fn pair_chain<'a, E: ParseError, T: Syntax<'a, E>, P: Syntax<'a, E>>(
    pre: TokenStream<'a>,
    pairs: Seq<(T, P)>,
    cs: Seq<TokenStream<'a>>,
    ms: Seq<TokenStream<'a>>,
) -> bool {
    &&& cs.len() == pairs.len() + 1
    &&& ms.len() == pairs.len()
    &&& cs[0] == pre
    &&& forall|i: int|
        0 <= i < pairs.len() ==> T::parsed(cs[i], ms[i], Ok((#[trigger] pairs[i]).0)) && P::parsed(
            ms[i],
            cs[i + 1],
            Ok(pairs[i].1),
        )
}

/// A punctuated sequence parsed from `pre` to `post`: the pairs, then either no
/// further `T` (no tail), or a `T` with no `P` after it (the tail). Parsing
/// also stops after a pair that consumed nothing.
pub open spec fn punctuated_ended<'a, E: ParseError, T: Syntax<'a, E>, P: Syntax<'a, E>>(
    pre: TokenStream<'a>,
    post: TokenStream<'a>,
    p: Punctuated<T, P>,
    cs: Seq<TokenStream<'a>>,
    ms: Seq<TokenStream<'a>>,
) -> bool {
    let n = p.pairs@.len();
    &&& pair_chain::<E, T, P>(pre, p.pairs@, cs, ms)
    &&& match p.tail {
        None => post == cs[n as int] && (fails_softly::<E, T>(post) || (n > 0 && cs[n - 1].offset
            == post.offset)),
        Some(t) => T::parsed(cs[n as int], post, Ok(*t)) && fails_softly::<E, P>(post),
    }
}

/// After the pairs, parsed through `cs` and `ms`, either `T` failed fatally
/// with `e`, or a `T` parsed and then `P` failed fatally with `e`.
pub open spec fn punctuated_failed<'a, E: ParseError, T: Syntax<'a, E>, P: Syntax<'a, E>>(
    pre: TokenStream<'a>,
    pairs: Seq<(T, P)>,
    cs: Seq<TokenStream<'a>>,
    ms: Seq<TokenStream<'a>>,
    e: E,
) -> bool {
    let c = cs[pairs.len() as int];
    &&& pair_chain::<E, T, P>(pre, pairs, cs, ms)
    &&& {
        ||| fails_fatally::<E, T>(c, e)
        ||| exists|m: TokenStream<'a>, t: T| #[trigger] T::parsed(c, m, Ok(t)) && fails_fatally::<E, P>(m, e)
    }
}

impl<'a, E: ParseError, T: Syntax<'a, E>, P: Syntax<'a, E>> Syntax<'a, E> for Punctuated<T, P> {
    open spec fn parsed(pre: TokenStream<'a>, post: TokenStream<'a>, r: Result<Self, E>) -> bool {
        match r {
            Ok(p) => exists|cs: Seq<TokenStream<'a>>, ms: Seq<TokenStream<'a>>|
                #[trigger] punctuated_ended::<E, T, P>(pre, post, p, cs, ms),
            Err(e) => exists|pairs: Seq<(T, P)>, cs: Seq<TokenStream<'a>>, ms: Seq<TokenStream<'a>>|
                #[trigger] punctuated_failed::<E, T, P>(pre, pairs, cs, ms, e),
        }
    }

    open spec fn span_spec(&self) -> Span {
        union_of(
            seq_span::<E, (T, P)>(self.pairs@),
            match self.tail {
                Some(t) => t.span_spec(),
                None => Span::Empty,
            },
        )
    }

    fn parse(input: &mut TokenStream<'a>) -> (r: Result<Self, E>) {
        let ghost pre = *input;
        let mut pairs: Vec<(T, P)> = Vec::new();
        let ghost mut cs: Seq<TokenStream<'a>> = seq![*input];
        let ghost mut ms: Seq<TokenStream<'a>> = Seq::empty();
        proof {
            crate::lang::lemma_advances_refl(*input);
        }
        loop
            invariant
                pre == *old(input),
                input.wf(),
                advances(pre, *input),
                pair_chain::<E, T, P>(pre, pairs@, cs, ms),
                cs[pairs@.len() as int] == *input,
            decreases input.value@.len(),
        {
            let ghost before = *input;
            let before_len = input.len();
            let t = match ok::<E, T>(input) {
                Err(e) => {
                    let done: Result<Self, E> = Err(e);
                    proof {
                        crate::lang::lemma_consumed_concat(pre, before, *input);
                        assert(done->Err_0 == e);
                        assert(punctuated_failed::<E, T, P>(pre, pairs@, cs, ms, done->Err_0));
                    }
                    return done;
                },
                Ok(None) => {
                    let done: Result<Self, E> = Ok(Punctuated { pairs, tail: None });
                    proof {
                        assert(done->Ok_0.pairs@ == pairs@);
                        assert(punctuated_ended::<E, T, P>(pre, *input, done->Ok_0, cs, ms));
                    }
                    return done;
                },
                Ok(Some(t)) => t,
            };
            let ghost mid = *input;
            proof {
                crate::lang::lemma_consumed_concat(pre, before, mid);
            }
            let p = match ok::<E, P>(input) {
                Err(e) => {
                    let done: Result<Self, E> = Err(e);
                    proof {
                        crate::lang::lemma_consumed_concat(pre, mid, *input);
                        assert(T::parsed(before, mid, Ok(t)));
                        assert(done->Err_0 == e);
                        assert(punctuated_failed::<E, T, P>(pre, pairs@, cs, ms, done->Err_0));
                    }
                    return done;
                },
                Ok(None) => {
                    let done: Result<Self, E> = Ok(Punctuated { pairs, tail: Some(Box::new(t)) });
                    proof {
                        assert(done->Ok_0.pairs@ == pairs@);
                        assert(*done->Ok_0.tail->0 == t);
                        assert(punctuated_ended::<E, T, P>(pre, *input, done->Ok_0, cs, ms));
                    }
                    return done;
                },
                Ok(Some(p)) => p,
            };
            proof {
                crate::lang::lemma_consumed_concat(pre, mid, *input);
            }
            // A pair that consumed nothing would match forever.
            let stuck = input.len() == before_len;
            let ghost old_pairs = pairs@;
            pairs.push((t, p));
            proof {
                let old_cs = cs;
                let old_ms = ms;
                cs = cs.push(*input);
                ms = ms.push(mid);
                assert forall|i: int| 0 <= i < pairs@.len() implies T::parsed(
                    cs[i],
                    ms[i],
                    Ok((#[trigger] pairs@[i]).0),
                ) && P::parsed(ms[i], cs[i + 1], Ok(pairs@[i].1)) by {
                    if i < old_pairs.len() {
                        assert(pairs@[i] == old_pairs[i]);
                        assert(cs[i] == old_cs[i] && cs[i + 1] == old_cs[i + 1] && ms[i] == old_ms[i]);
                    }
                }
                assert(pair_chain::<E, T, P>(pre, pairs@, cs, ms));
            }
            if stuck {
                let done: Result<Self, E> = Ok(Punctuated { pairs, tail: None });
                proof {
                    assert(done->Ok_0.pairs@ == pairs@);
                    assert(punctuated_ended::<E, T, P>(pre, *input, done->Ok_0, cs, ms));
                }
                return done;
            }
        }
    }

    fn to_span(&self) -> (r: Span) {
        let tail = match &self.tail {
            Some(t) => t.to_span(),
            None => Span::Empty,
        };
        self.pairs.to_span().union(&tail)
    }
}

/// The single byte `C`.
#[derive(Debug, PartialEq, Eq, PartialOrd, Ord, Clone)]
pub struct Char<'a, const C: u8>(pub TokenStream<'a>);

impl<'a, E: ParseError, const C: u8> Syntax<'a, E> for Char<'a, C> {
    open spec fn parsed(pre: TokenStream<'a>, post: TokenStream<'a>, r: Result<Self, E>) -> bool {
        crate::lexer::next_parsed::<E>(
            pre,
            post,
            match r {
                Ok(c) => Ok(c.0),
                Err(e) => Err(e),
            },
            C,
        )
    }

    open spec fn span_spec(&self) -> Span {
        self.0.span_of()
    }

    fn parse(input: &mut TokenStream<'a>) -> (r: Result<Self, E>) {
        match crate::lexer::next::<E>(input, C) {
            Ok(t) => Ok(Char(t)),
            Err(e) => Err(e),
        }
    }

    fn to_span(&self) -> (r: Span) {
        self.0.to_span()
    }
}

/// A node that consumes nothing and always parses.
impl<'a, E: ParseError, T> Syntax<'a, E> for core::marker::PhantomData<T> {
    open spec fn parsed(pre: TokenStream<'a>, post: TokenStream<'a>, r: Result<Self, E>) -> bool {
        r is Ok && post == pre
    }

    open spec fn span_spec(&self) -> Span {
        Span::Empty
    }

    fn parse(input: &mut TokenStream<'a>) -> (r: Result<Self, E>) {
        proof {
            crate::lang::lemma_advances_refl(*input);
        }
        Ok(core::marker::PhantomData)
    }

    fn to_span(&self) -> (r: Span) {
        Span::Empty
    }
}

/// Parses the rest of a node whose prefix `P` was already parsed, for grammars
/// where lookahead picks the continuation without parsing the prefix again.
pub trait PartialSyntax<'a, E: ParseError, P>: Sized {
    /// Parsing the rest after `prefix` from `pre` may end at `post` with `r`.
    spec fn parsed_with_prefix(prefix: P, pre: TokenStream<'a>, post: TokenStream<'a>, r: Result<Self, E>) -> bool;

    /// Parses the rest of the node after `prefix`.
    fn parse_with_prefix(prefix: P, input: &mut TokenStream<'a>) -> (r: Result<Self, E>)
        requires
            old(input).wf(),
        ensures
            final(input).wf(),
            advances(*old(input), *final(input)),
            Self::parsed_with_prefix(prefix, *old(input), *final(input), r),
    ;
}

impl<'a> TokenStream<'a> {
    /// Parses a node of type `S` from this cursor.
    pub fn parse<S: Syntax<'a, E>, E: ParseError>(&mut self) -> (r: Result<S, E>)
        requires
            old(self).wf(),
        ensures
            final(self).wf(),
            advances(*old(self), *final(self)),
            S::parsed(*old(self), *final(self), r),
    {
        S::parse(self)
    }
}

/// `Option<T>` leaves the cursor where it was when `T` does not match.
pub proof fn lemma_optional_unconsumed<'a, E: ParseError, T: Syntax<'a, E>>(
    pre: TokenStream<'a>,
    post: TokenStream<'a>,
)
    requires
        <Option<T> as Syntax<'a, E>>::parsed(pre, post, Ok(Option::None)),
    ensures
        post == pre,
        fails_softly::<E, T>(pre),
{
}

/// `Vec<T>` fails only where `T` itself fails fatally, after the nodes
/// parsed before it, and with `T`'s own error: so where `T` never fails
/// fatally, `Vec<T>` succeeds. On success it stops where `T` does not match,
/// without consuming that attempt (or after a node that consumed nothing).
pub proof fn lemma_many_stops_at_mismatch<'a, E: ParseError, T: Syntax<'a, E>>(
    pre: TokenStream<'a>,
    post: TokenStream<'a>,
    r: Result<Vec<T>, E>,
)
    requires
        <Vec<T> as Syntax<'a, E>>::parsed(pre, post, r),
    ensures
        r is Err ==> r->Err_0.flow() == ControlFlow::Fatal,
        r is Err ==> exists|m: TokenStream<'a>| #[trigger] fails_fatally::<E, T>(m, r->Err_0) && advances(pre, m),
        (forall|m: TokenStream<'a>, e: E| !#[trigger] fails_fatally::<E, T>(m, e)) ==> r is Ok,
        r is Ok ==> exists|cs: Seq<TokenStream<'a>>|
            {
                &&& #[trigger] chain::<E, T>(pre, post, r->Ok_0@, cs)
                &&& fails_softly::<E, T>(post) || (r->Ok_0@.len() > 0 && cs[r->Ok_0@.len() - 1].offset
                    == post.offset)
            },
{
    if r is Ok {
        let cs = choose|cs: Seq<TokenStream<'a>>| #[trigger] many_ended::<E, T>(pre, post, r->Ok_0@, cs);
        assert(chain::<E, T>(pre, post, r->Ok_0@, cs));
    } else {
        let (items, cs) = choose|items: Seq<T>, cs: Seq<TokenStream<'a>>|
            #[trigger] many_failed::<E, T>(pre, items, cs, r->Err_0);
        assert(fails_fatally::<E, T>(cs[items.len() as int], r->Err_0));
        assert(advances(pre, cs[items.len() as int]));
    }
}

/// `Punctuated<T, P>` fails only where `T` or `P` fails fatally: where
/// neither ever does, it succeeds.
pub proof fn lemma_punctuated_fails_only_fatally<'a, E: ParseError, T: Syntax<'a, E>, P: Syntax<'a, E>>(
    pre: TokenStream<'a>,
    post: TokenStream<'a>,
    r: Result<Punctuated<T, P>, E>,
)
    requires
        <Punctuated<T, P> as Syntax<'a, E>>::parsed(pre, post, r),
        forall|m: TokenStream<'a>, e: E| !#[trigger] fails_fatally::<E, T>(m, e),
        forall|m: TokenStream<'a>, e: E| !#[trigger] fails_fatally::<E, P>(m, e),
    ensures
        r is Ok,
{
    if r is Err {
        let (pairs, cs, ms) = choose|pairs: Seq<(T, P)>, cs: Seq<TokenStream<'a>>, ms: Seq<TokenStream<'a>>|
            #[trigger] punctuated_failed::<E, T, P>(pre, pairs, cs, ms, r->Err_0);
        let c = cs[pairs.len() as int];
        assert(!fails_fatally::<E, T>(c, r->Err_0));
        let (m, t) = choose|m: TokenStream<'a>, t: T| #[trigger] T::parsed(c, m, Ok(t)) && fails_fatally::<E, P>(m, r->Err_0);
        assert(!fails_fatally::<E, P>(m, r->Err_0));
    }
}

/// Where every success of `T` consumes at least one byte, a successful
/// `Vec<T>` stops exactly where `T` fails without being fatal.
pub proof fn lemma_many_stops_where_element_fails<'a, E: ParseError, T: Syntax<'a, E>>(
    pre: TokenStream<'a>,
    post: TokenStream<'a>,
    v: Vec<T>,
)
    requires
        <Vec<T> as Syntax<'a, E>>::parsed(pre, post, Ok(v)),
        forall|a: TokenStream<'a>, b: TokenStream<'a>, t: T| #[trigger] T::parsed(a, b, Ok(t)) ==> b.offset > a.offset,
    ensures
        fails_softly::<E, T>(post),
{
    let cs = choose|cs: Seq<TokenStream<'a>>| #[trigger] many_ended::<E, T>(pre, post, v@, cs);
    if v@.len() > 0 {
        let n = v@.len() as int;
        assert(T::parsed(cs[n - 1], cs[n], Ok(v@[n - 1])));
    }
}

} // verus!
