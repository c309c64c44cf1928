//! The `Parser` capability and its adapters.
use vstd::prelude::*;

use crate::errors::{ControlFlow, ParseError};
use crate::lang::{advances, TokenStream};
use crate::syntax::{PartialSyntax, Syntax};

verus! {

/// A parser: consumes a cursor and yields an output with the cursor advanced,
/// or an error.
pub trait Parser<'a, E: ParseError, O>: Sized {
    /// The parser can run (the functions it holds accept every input).
    spec fn ready(&self) -> bool;

    /// Running the parser from `pre` may end at `post` with the outcome `r`.
    spec fn parsed(&self, pre: TokenStream<'a>, post: TokenStream<'a>, r: Result<O, E>) -> bool;

    /// Runs the parser on the input.
    fn parse(self, input: &mut TokenStream<'a>) -> (r: Result<O, E>)
        requires
            self.ready(),
            old(input).wf(),
        ensures
            final(input).wf(),
            advances(*old(input), *final(input)),
            self.parsed(*old(input), *final(input), r),
    ;

    /// A parser that turns a failure of this one that is not fatal into `None`.
    fn ok(self) -> (r: IsOk<Self>)
        ensures
            r.0 == self,
    {
        IsOk(self)
    }

    /// A parser that maps the output of this one through `f`.
    fn map<F, T>(self, f: F) -> (r: MapOutput<Self, F, O>)
        where
            F: FnOnce(O) -> T,
        ensures
            r.0 == self,
            r.1 == f,
    {
        MapOutput(self, f, core::marker::PhantomData)
    }

    /// A parser that makes every failure of this one fatal.
    fn fatal(self) -> (r: Fatal<Self>)
        ensures
            r.0 == self,
    {
        Fatal(self)
    }

    /// A parser that boxes the output of this one.
    fn boxed(self) -> (r: Boxed<Self>)
        ensures
            r.0 == self,
    {
        Boxed(self)
    }

    /// A parser that runs `other` where this one fails without being fatal.
    fn or<R>(self, other: R) -> (r: OrElse<Self, R>)
        ensures
            r.0 == self,
            r.1 == other,
    {
        OrElse(self, other)
    }
}

/// Runs the syntax `T`.
pub struct SyntaxParser<T> {
    /// The node type.
    pub node: core::marker::PhantomData<T>,
}

/// A parser for the syntax `T`.
pub fn into_parser<T>() -> (r: SyntaxParser<T>) {
    SyntaxParser { node: core::marker::PhantomData }
}

impl<'a, E: ParseError, T: Syntax<'a, E>> Parser<'a, E, T> for SyntaxParser<T> {
    open spec fn ready(&self) -> bool {
        true
    }

    open spec fn parsed(&self, pre: TokenStream<'a>, post: TokenStream<'a>, r: Result<T, E>) -> bool {
        T::parsed(pre, post, r)
    }

    fn parse(self, input: &mut TokenStream<'a>) -> (r: Result<T, E>) {
        T::parse(input)
    }
}

/// Runs the rest of `T` after an already parsed prefix.
pub struct PartialSyntaxParser<T, P> {
    /// The parsed prefix.
    pub prefix: P,
    /// The node type.
    pub node: core::marker::PhantomData<T>,
}

/// A parser for the rest of `T` after `prefix`.
pub fn into_parser_with_prefix<T, P>(prefix: P) -> (r: PartialSyntaxParser<T, P>)
    ensures
        r.prefix == prefix,
{
    PartialSyntaxParser { prefix, node: core::marker::PhantomData }
}

impl<'a, E: ParseError, P, T: PartialSyntax<'a, E, P>> Parser<'a, E, T> for PartialSyntaxParser<T, P> {
    open spec fn ready(&self) -> bool {
        true
    }

    open spec fn parsed(&self, pre: TokenStream<'a>, post: TokenStream<'a>, r: Result<T, E>) -> bool {
        T::parsed_with_prefix(self.prefix, pre, post, r)
    }

    fn parse(self, input: &mut TokenStream<'a>) -> (r: Result<T, E>) {
        T::parse_with_prefix(self.prefix, input)
    }
}

/// Runs `P` on a copy of the cursor: a failure that is not fatal becomes
/// `None` with the cursor left where it was; a fatal one is returned.
pub struct IsOk<P>(pub P);

impl<'a, E: ParseError, O, P: Parser<'a, E, O>> Parser<'a, E, Option<O>> for IsOk<P> {
    open spec fn ready(&self) -> bool {
        self.0.ready()
    }

    open spec fn parsed(&self, pre: TokenStream<'a>, post: TokenStream<'a>, r: Result<Option<O>, E>) -> bool {
        match r {
            Ok(Some(v)) => self.0.parsed(pre, post, Ok(v)),
            Ok(None) => post == pre && exists|m: TokenStream<'a>, e: E|
                #[trigger] self.0.parsed(pre, m, Err(e)) && e.flow() != ControlFlow::Fatal,
            Err(e) => e.flow() == ControlFlow::Fatal && exists|m: TokenStream<'a>|
                #[trigger] self.0.parsed(pre, m, Err(e)),
        }
    }

    fn parse(self, input: &mut TokenStream<'a>) -> (r: Result<Option<O>, E>) {
        let ghost p = self.0;
        let mut attempt = *input;
        proof {
            crate::lang::lemma_advances_refl(*input);
        }
        match self.0.parse(&mut attempt) {
            Ok(t) => {
                *input = attempt;
                Ok(Some(t))
            },
            Err(err) => {
                if err.control_flow() == ControlFlow::Fatal {
                    Err(err)
                } else {
                    proof {
                        assert(p.parsed(*old(input), attempt, Err(err)));
                    }
                    Ok(Option::None)
                }
            },
        }
    }
}

/// Runs `P` and maps a successful output through the function `F`.
pub struct MapOutput<P, F, I>(pub P, pub F, pub core::marker::PhantomData<I>);

impl<'a, E: ParseError, I, O, P: Parser<'a, E, I>, F: FnOnce(I) -> O> Parser<'a, E, O> for MapOutput<P, F, I> {
    open spec fn ready(&self) -> bool {
        self.0.ready() && forall|v: I| self.1.requires((v,))
    }

    open spec fn parsed(&self, pre: TokenStream<'a>, post: TokenStream<'a>, r: Result<O, E>) -> bool {
        match r {
            Ok(o) => exists|v: I| #[trigger] self.0.parsed(pre, post, Ok(v)) && self.1.ensures((v,), o),
            Err(e) => self.0.parsed(pre, post, Err(e)),
        }
    }

    fn parse(self, input: &mut TokenStream<'a>) -> (r: Result<O, E>) {
        let ghost p = self.0;
        let f = self.1;
        match self.0.parse(input) {
            Ok(v) => {
                let o = f(v);
                proof {
                    assert(p.parsed(*old(input), *input, Ok(v)));
                }
                Ok(o)
            },
            Err(e) => Err(e),
        }
    }
}

/// Runs `P` and raises any failure to fatal.
pub struct Fatal<P>(pub P);

impl<'a, E: ParseError, O, P: Parser<'a, E, O>> Parser<'a, E, O> for Fatal<P> {
    open spec fn ready(&self) -> bool {
        self.0.ready()
    }

    open spec fn parsed(&self, pre: TokenStream<'a>, post: TokenStream<'a>, r: Result<O, E>) -> bool {
        match r {
            Ok(v) => self.0.parsed(pre, post, Ok(v)),
            Err(e) => e.flow() == ControlFlow::Fatal && exists|e0: E|
                #[trigger] self.0.parsed(pre, post, Err(e0)) && e == e0.made_fatal() && e.spot() == e0.spot(),
        }
    }

    fn parse(self, input: &mut TokenStream<'a>) -> (r: Result<O, E>) {
        let ghost p = self.0;
        match self.0.parse(input) {
            Ok(v) => Ok(v),
            Err(e) => {
                proof {
                    assert(p.parsed(*old(input), *input, Err(e)));
                }
                Err(e.into_fatal())
            },
        }
    }
}

/// Runs `P` and boxes a successful output.
pub struct Boxed<P>(pub P);

impl<'a, E: ParseError, O, P: Parser<'a, E, O>> Parser<'a, E, Box<O>> for Boxed<P> {
    open spec fn ready(&self) -> bool {
        self.0.ready()
    }

    open spec fn parsed(&self, pre: TokenStream<'a>, post: TokenStream<'a>, r: Result<Box<O>, E>) -> bool {
        match r {
            Ok(b) => self.0.parsed(pre, post, Ok(*b)),
            Err(e) => self.0.parsed(pre, post, Err(e)),
        }
    }

    fn parse(self, input: &mut TokenStream<'a>) -> (r: Result<Box<O>, E>) {
        match self.0.parse(input) {
            Ok(v) => Ok(Box::new(v)),
            Err(e) => Err(e),
        }
    }
}

/// Tries `L` on a copy of the cursor; after a failure that is not fatal, runs
/// `R` from where `L` started. A fatal failure of `L` is returned at once.
pub struct OrElse<L, R>(pub L, pub R);

impl<'a, E: ParseError, O, L: Parser<'a, E, O>, R: Parser<'a, E, O>> Parser<'a, E, O> for OrElse<L, R> {
    open spec fn ready(&self) -> bool {
        self.0.ready() && self.1.ready()
    }

    open spec fn parsed(&self, pre: TokenStream<'a>, post: TokenStream<'a>, r: Result<O, E>) -> bool {
        ||| self.0.parsed(pre, post, r) && r is Ok
        ||| (exists|e: E| #[trigger] self.0.parsed(pre, post, Err(e)) && e.flow() == ControlFlow::Fatal && r == Err::<O, E>(e))
        ||| (exists|m: TokenStream<'a>, e: E|
            #[trigger] self.0.parsed(pre, m, Err(e)) && e.flow() != ControlFlow::Fatal) && self.1.parsed(pre, post, r)
    }

    fn parse(self, input: &mut TokenStream<'a>) -> (r: Result<O, E>) {
        let ghost first = self.0;
        let mut attempt = *input;
        proof {
            crate::lang::lemma_advances_refl(*input);
        }
        match self.0.parse(&mut attempt) {
            Ok(v) => {
                *input = attempt;
                Ok(v)
            },
            Err(e) => {
                if e.control_flow() == ControlFlow::Fatal {
                    *input = attempt;
                    Err(e)
                } else {
                    proof {
                        assert(first.parsed(*old(input), attempt, Err(e)));
                    }
                    self.1.parse(input)
                }
            },
        }
    }
}

/// A function from a cursor to an output and the cursor after it, or an
/// error, used as a parser. On an error the cursor stays where it was.
pub struct FromFn<F>(pub F);

impl<'a, E: ParseError, O, F: FnOnce(TokenStream<'a>) -> Result<(O, TokenStream<'a>), E>> Parser<'a, E, O> for FromFn<F> {
    /// The function accepts every well-formed cursor, and what it leaves is a
    /// well-formed remainder of what it was given.
    open spec fn ready(&self) -> bool {
        &&& forall|c: TokenStream<'a>| c.wf() ==> #[trigger] self.0.requires((c,))
        &&& forall|c: TokenStream<'a>, r: Result<(O, TokenStream<'a>), E>|
            c.wf() && #[trigger] self.0.ensures((c,), r) && r is Ok ==> r->Ok_0.1.wf() && advances(c, r->Ok_0.1)
    }

    open spec fn parsed(&self, pre: TokenStream<'a>, post: TokenStream<'a>, r: Result<O, E>) -> bool {
        match r {
            Ok(o) => self.0.ensures((pre,), Ok((o, post))),
            Err(e) => self.0.ensures((pre,), Err(e)) && post == pre,
        }
    }

    fn parse(self, input: &mut TokenStream<'a>) -> (r: Result<O, E>) {
        let f = self.0;
        let start = *input;
        proof {
            crate::lang::lemma_advances_refl(start);
        }
        match f(start) {
            Ok((o, rest)) => {
                *input = rest;
                Ok(o)
            },
            Err(e) => Err(e),
        }
    }
}

} // verus!
