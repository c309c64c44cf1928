//! `Syntax` for tuples: the elements parsed in order, each from where the one
//! before it stopped.
use vstd::prelude::*;

use crate::errors::ParseError;
use crate::lang::TokenStream;
use crate::span::{union_of, Span};
use crate::syntax::Syntax;

verus! {

/// The first element, then the remaining ones as a tuple.
impl<'a, E: ParseError, T0: Syntax<'a, E>, T1: Syntax<'a, E>, T2: Syntax<'a, E>> Syntax<'a, E> for (T0, T1, T2) {
    open spec fn parsed(pre: TokenStream<'a>, post: TokenStream<'a>, r: Result<Self, E>) -> bool {
        match r {
            Ok(v) => exists|m: TokenStream<'a>|
                #[trigger] T0::parsed(pre, m, Ok(v.0)) && <(T1, T2) as Syntax<'a, E>>::parsed(m, post, Ok((v.1, v.2))),
            Err(e) => T0::parsed(pre, post, Err(e)) || exists|m: TokenStream<'a>, a: T0|
                #[trigger] T0::parsed(pre, m, Ok(a)) && <(T1, T2) as Syntax<'a, E>>::parsed(m, post, Err(e)),
        }
    }

    open spec fn span_spec(&self) -> Span {
        union_of(union_of(self.0.span_spec(), self.1.span_spec()), self.2.span_spec())
    }

    fn parse(input: &mut TokenStream<'a>) -> (r: Result<Self, E>) {
        let ghost pre = *input;
        let a = match T0::parse(input) {
            Ok(a) => a,
            Err(e) => {
                return Err(e);
            },
        };
        let ghost mid = *input;
        match <(T1, T2) as Syntax<'a, E>>::parse(input) {
            Ok(rest) => {
                proof {
                    crate::lang::lemma_consumed_concat(pre, mid, *input);
                }
                let ghost whole = rest;
                let (x1, x2) = rest;
                let done: Result<Self, E> = Ok((a, x1, x2));
                proof {
                    assert(done->Ok_0.0 == a);
                    assert((done->Ok_0.1, done->Ok_0.2) == whole);
                    assert(T0::parsed(pre, mid, Ok(done->Ok_0.0)));
                }
                done
            },
            Err(e) => {
                proof {
                    crate::lang::lemma_consumed_concat(pre, mid, *input);
                    assert(T0::parsed(pre, mid, Ok(a)));
                }
                Err(e)
            },
        }
    }

    fn to_span(&self) -> (r: Span) {
        self.0.to_span().union(&self.1.to_span()).union(&self.2.to_span())
    }
}

/// The first element, then the remaining ones as a tuple.
impl<'a, E: ParseError, T0: Syntax<'a, E>, T1: Syntax<'a, E>, T2: Syntax<'a, E>, T3: Syntax<'a, E>> Syntax<'a, E> for (T0, T1, T2, T3) {
    open spec fn parsed(pre: TokenStream<'a>, post: TokenStream<'a>, r: Result<Self, E>) -> bool {
        match r {
            Ok(v) => exists|m: TokenStream<'a>|
                #[trigger] T0::parsed(pre, m, Ok(v.0)) && <(T1, T2, T3) as Syntax<'a, E>>::parsed(m, post, Ok((v.1, v.2, v.3))),
            Err(e) => T0::parsed(pre, post, Err(e)) || exists|m: TokenStream<'a>, a: T0|
                #[trigger] T0::parsed(pre, m, Ok(a)) && <(T1, T2, T3) as Syntax<'a, E>>::parsed(m, post, Err(e)),
        }
    }

    open spec fn span_spec(&self) -> Span {
        union_of(union_of(union_of(self.0.span_spec(), self.1.span_spec()), self.2.span_spec()), self.3.span_spec())
    }

    fn parse(input: &mut TokenStream<'a>) -> (r: Result<Self, E>) {
        let ghost pre = *input;
        let a = match T0::parse(input) {
            Ok(a) => a,
            Err(e) => {
                return Err(e);
            },
        };
        let ghost mid = *input;
        match <(T1, T2, T3) as Syntax<'a, E>>::parse(input) {
            Ok(rest) => {
                proof {
                    crate::lang::lemma_consumed_concat(pre, mid, *input);
                }
                let ghost whole = rest;
                let (x1, x2, x3) = rest;
                let done: Result<Self, E> = Ok((a, x1, x2, x3));
                proof {
                    assert(done->Ok_0.0 == a);
                    assert((done->Ok_0.1, done->Ok_0.2, done->Ok_0.3) == whole);
                    assert(T0::parsed(pre, mid, Ok(done->Ok_0.0)));
                }
                done
            },
            Err(e) => {
                proof {
                    crate::lang::lemma_consumed_concat(pre, mid, *input);
                    assert(T0::parsed(pre, mid, Ok(a)));
                }
                Err(e)
            },
        }
    }

    fn to_span(&self) -> (r: Span) {
        self.0.to_span().union(&self.1.to_span()).union(&self.2.to_span()).union(&self.3.to_span())
    }
}

/// The first element, then the remaining ones as a tuple.
impl<'a, E: ParseError, T0: Syntax<'a, E>, T1: Syntax<'a, E>, T2: Syntax<'a, E>, T3: Syntax<'a, E>, T4: Syntax<'a, E>> Syntax<'a, E> for (T0, T1, T2, T3, T4) {
    open spec fn parsed(pre: TokenStream<'a>, post: TokenStream<'a>, r: Result<Self, E>) -> bool {
        match r {
            Ok(v) => exists|m: TokenStream<'a>|
                #[trigger] T0::parsed(pre, m, Ok(v.0)) && <(T1, T2, T3, T4) as Syntax<'a, E>>::parsed(m, post, Ok((v.1, v.2, v.3, v.4))),
            Err(e) => T0::parsed(pre, post, Err(e)) || exists|m: TokenStream<'a>, a: T0|
                #[trigger] T0::parsed(pre, m, Ok(a)) && <(T1, T2, T3, T4) as Syntax<'a, E>>::parsed(m, post, Err(e)),
        }
    }

    open spec fn span_spec(&self) -> Span {
        union_of(union_of(union_of(union_of(self.0.span_spec(), self.1.span_spec()), self.2.span_spec()), self.3.span_spec()), self.4.span_spec())
    }

    fn parse(input: &mut TokenStream<'a>) -> (r: Result<Self, E>) {
        let ghost pre = *input;
        let a = match T0::parse(input) {
            Ok(a) => a,
            Err(e) => {
                return Err(e);
            },
        };
        let ghost mid = *input;
        match <(T1, T2, T3, T4) as Syntax<'a, E>>::parse(input) {
            Ok(rest) => {
                proof {
                    crate::lang::lemma_consumed_concat(pre, mid, *input);
                }
                let ghost whole = rest;
                let (x1, x2, x3, x4) = rest;
                let done: Result<Self, E> = Ok((a, x1, x2, x3, x4));
                proof {
                    assert(done->Ok_0.0 == a);
                    assert((done->Ok_0.1, done->Ok_0.2, done->Ok_0.3, done->Ok_0.4) == whole);
                    assert(T0::parsed(pre, mid, Ok(done->Ok_0.0)));
                }
                done
            },
            Err(e) => {
                proof {
                    crate::lang::lemma_consumed_concat(pre, mid, *input);
                    assert(T0::parsed(pre, mid, Ok(a)));
                }
                Err(e)
            },
        }
    }

    fn to_span(&self) -> (r: Span) {
        self.0.to_span().union(&self.1.to_span()).union(&self.2.to_span()).union(&self.3.to_span()).union(&self.4.to_span())
    }
}

/// The first element, then the remaining ones as a tuple.
impl<'a, E: ParseError, T0: Syntax<'a, E>, T1: Syntax<'a, E>, T2: Syntax<'a, E>, T3: Syntax<'a, E>, T4: Syntax<'a, E>, T5: Syntax<'a, E>> Syntax<'a, E> for (T0, T1, T2, T3, T4, T5) {
    open spec fn parsed(pre: TokenStream<'a>, post: TokenStream<'a>, r: Result<Self, E>) -> bool {
        match r {
            Ok(v) => exists|m: TokenStream<'a>|
                #[trigger] T0::parsed(pre, m, Ok(v.0)) && <(T1, T2, T3, T4, T5) as Syntax<'a, E>>::parsed(m, post, Ok((v.1, v.2, v.3, v.4, v.5))),
            Err(e) => T0::parsed(pre, post, Err(e)) || exists|m: TokenStream<'a>, a: T0|
                #[trigger] T0::parsed(pre, m, Ok(a)) && <(T1, T2, T3, T4, T5) as Syntax<'a, E>>::parsed(m, post, Err(e)),
        }
    }

    open spec fn span_spec(&self) -> Span {
        union_of(union_of(union_of(union_of(union_of(self.0.span_spec(), self.1.span_spec()), self.2.span_spec()), self.3.span_spec()), self.4.span_spec()), self.5.span_spec())
    }

    fn parse(input: &mut TokenStream<'a>) -> (r: Result<Self, E>) {
        let ghost pre = *input;
        let a = match T0::parse(input) {
            Ok(a) => a,
            Err(e) => {
                return Err(e);
            },
        };
        let ghost mid = *input;
        match <(T1, T2, T3, T4, T5) as Syntax<'a, E>>::parse(input) {
            Ok(rest) => {
                proof {
                    crate::lang::lemma_consumed_concat(pre, mid, *input);
                }
                let ghost whole = rest;
                let (x1, x2, x3, x4, x5) = rest;
                let done: Result<Self, E> = Ok((a, x1, x2, x3, x4, x5));
                proof {
                    assert(done->Ok_0.0 == a);
                    assert((done->Ok_0.1, done->Ok_0.2, done->Ok_0.3, done->Ok_0.4, done->Ok_0.5) == whole);
                    assert(T0::parsed(pre, mid, Ok(done->Ok_0.0)));
                }
                done
            },
            Err(e) => {
                proof {
                    crate::lang::lemma_consumed_concat(pre, mid, *input);
                    assert(T0::parsed(pre, mid, Ok(a)));
                }
                Err(e)
            },
        }
    }

    fn to_span(&self) -> (r: Span) {
        self.0.to_span().union(&self.1.to_span()).union(&self.2.to_span()).union(&self.3.to_span()).union(&self.4.to_span()).union(&self.5.to_span())
    }
}

/// The first element, then the remaining ones as a tuple.
impl<'a, E: ParseError, T0: Syntax<'a, E>, T1: Syntax<'a, E>, T2: Syntax<'a, E>, T3: Syntax<'a, E>, T4: Syntax<'a, E>, T5: Syntax<'a, E>, T6: Syntax<'a, E>> Syntax<'a, E> for (T0, T1, T2, T3, T4, T5, T6) {
    open spec fn parsed(pre: TokenStream<'a>, post: TokenStream<'a>, r: Result<Self, E>) -> bool {
        match r {
            Ok(v) => exists|m: TokenStream<'a>|
                #[trigger] T0::parsed(pre, m, Ok(v.0)) && <(T1, T2, T3, T4, T5, T6) as Syntax<'a, E>>::parsed(m, post, Ok((v.1, v.2, v.3, v.4, v.5, v.6))),
            Err(e) => T0::parsed(pre, post, Err(e)) || exists|m: TokenStream<'a>, a: T0|
                #[trigger] T0::parsed(pre, m, Ok(a)) && <(T1, T2, T3, T4, T5, T6) as Syntax<'a, E>>::parsed(m, post, Err(e)),
        }
    }

    open spec fn span_spec(&self) -> Span {
        union_of(union_of(union_of(union_of(union_of(union_of(self.0.span_spec(), self.1.span_spec()), self.2.span_spec()), self.3.span_spec()), self.4.span_spec()), self.5.span_spec()), self.6.span_spec())
    }

    fn parse(input: &mut TokenStream<'a>) -> (r: Result<Self, E>) {
        let ghost pre = *input;
        let a = match T0::parse(input) {
            Ok(a) => a,
            Err(e) => {
                return Err(e);
            },
        };
        let ghost mid = *input;
        match <(T1, T2, T3, T4, T5, T6) as Syntax<'a, E>>::parse(input) {
            Ok(rest) => {
                proof {
                    crate::lang::lemma_consumed_concat(pre, mid, *input);
                }
                let ghost whole = rest;
                let (x1, x2, x3, x4, x5, x6) = rest;
                let done: Result<Self, E> = Ok((a, x1, x2, x3, x4, x5, x6));
                proof {
                    assert(done->Ok_0.0 == a);
                    assert((done->Ok_0.1, done->Ok_0.2, done->Ok_0.3, done->Ok_0.4, done->Ok_0.5, done->Ok_0.6) == whole);
                    assert(T0::parsed(pre, mid, Ok(done->Ok_0.0)));
                }
                done
            },
            Err(e) => {
                proof {
                    crate::lang::lemma_consumed_concat(pre, mid, *input);
                    assert(T0::parsed(pre, mid, Ok(a)));
                }
                Err(e)
            },
        }
    }

    fn to_span(&self) -> (r: Span) {
        self.0.to_span().union(&self.1.to_span()).union(&self.2.to_span()).union(&self.3.to_span()).union(&self.4.to_span()).union(&self.5.to_span()).union(&self.6.to_span())
    }
}

/// The first element, then the remaining ones as a tuple.
impl<'a, E: ParseError, T0: Syntax<'a, E>, T1: Syntax<'a, E>, T2: Syntax<'a, E>, T3: Syntax<'a, E>, T4: Syntax<'a, E>, T5: Syntax<'a, E>, T6: Syntax<'a, E>, T7: Syntax<'a, E>> Syntax<'a, E> for (T0, T1, T2, T3, T4, T5, T6, T7) {
    open spec fn parsed(pre: TokenStream<'a>, post: TokenStream<'a>, r: Result<Self, E>) -> bool {
        match r {
            Ok(v) => exists|m: TokenStream<'a>|
                #[trigger] T0::parsed(pre, m, Ok(v.0)) && <(T1, T2, T3, T4, T5, T6, T7) as Syntax<'a, E>>::parsed(m, post, Ok((v.1, v.2, v.3, v.4, v.5, v.6, v.7))),
            Err(e) => T0::parsed(pre, post, Err(e)) || exists|m: TokenStream<'a>, a: T0|
                #[trigger] T0::parsed(pre, m, Ok(a)) && <(T1, T2, T3, T4, T5, T6, T7) as Syntax<'a, E>>::parsed(m, post, Err(e)),
        }
    }

    open spec fn span_spec(&self) -> Span {
        union_of(union_of(union_of(union_of(union_of(union_of(union_of(self.0.span_spec(), self.1.span_spec()), self.2.span_spec()), self.3.span_spec()), self.4.span_spec()), self.5.span_spec()), self.6.span_spec()), self.7.span_spec())
    }

    fn parse(input: &mut TokenStream<'a>) -> (r: Result<Self, E>) {
        let ghost pre = *input;
        let a = match T0::parse(input) {
            Ok(a) => a,
            Err(e) => {
                return Err(e);
            },
        };
        let ghost mid = *input;
        match <(T1, T2, T3, T4, T5, T6, T7) as Syntax<'a, E>>::parse(input) {
            Ok(rest) => {
                proof {
                    crate::lang::lemma_consumed_concat(pre, mid, *input);
                }
                let ghost whole = rest;
                let (x1, x2, x3, x4, x5, x6, x7) = rest;
                let done: Result<Self, E> = Ok((a, x1, x2, x3, x4, x5, x6, x7));
                proof {
                    assert(done->Ok_0.0 == a);
                    assert((done->Ok_0.1, done->Ok_0.2, done->Ok_0.3, done->Ok_0.4, done->Ok_0.5, done->Ok_0.6, done->Ok_0.7) == whole);
                    assert(T0::parsed(pre, mid, Ok(done->Ok_0.0)));
                }
                done
            },
            Err(e) => {
                proof {
                    crate::lang::lemma_consumed_concat(pre, mid, *input);
                    assert(T0::parsed(pre, mid, Ok(a)));
                }
                Err(e)
            },
        }
    }

    fn to_span(&self) -> (r: Span) {
        self.0.to_span().union(&self.1.to_span()).union(&self.2.to_span()).union(&self.3.to_span()).union(&self.4.to_span()).union(&self.5.to_span()).union(&self.6.to_span()).union(&self.7.to_span())
    }
}

/// The first element, then the remaining ones as a tuple.
impl<'a, E: ParseError, T0: Syntax<'a, E>, T1: Syntax<'a, E>, T2: Syntax<'a, E>, T3: Syntax<'a, E>, T4: Syntax<'a, E>, T5: Syntax<'a, E>, T6: Syntax<'a, E>, T7: Syntax<'a, E>, T8: Syntax<'a, E>> Syntax<'a, E> for (T0, T1, T2, T3, T4, T5, T6, T7, T8) {
    open spec fn parsed(pre: TokenStream<'a>, post: TokenStream<'a>, r: Result<Self, E>) -> bool {
        match r {
            Ok(v) => exists|m: TokenStream<'a>|
                #[trigger] T0::parsed(pre, m, Ok(v.0)) && <(T1, T2, T3, T4, T5, T6, T7, T8) as Syntax<'a, E>>::parsed(m, post, Ok((v.1, v.2, v.3, v.4, v.5, v.6, v.7, v.8))),
            Err(e) => T0::parsed(pre, post, Err(e)) || exists|m: TokenStream<'a>, a: T0|
                #[trigger] T0::parsed(pre, m, Ok(a)) && <(T1, T2, T3, T4, T5, T6, T7, T8) as Syntax<'a, E>>::parsed(m, post, Err(e)),
        }
    }

    open spec fn span_spec(&self) -> Span {
        union_of(union_of(union_of(union_of(union_of(union_of(union_of(union_of(self.0.span_spec(), self.1.span_spec()), self.2.span_spec()), self.3.span_spec()), self.4.span_spec()), self.5.span_spec()), self.6.span_spec()), self.7.span_spec()), self.8.span_spec())
    }

    fn parse(input: &mut TokenStream<'a>) -> (r: Result<Self, E>) {
        let ghost pre = *input;
        let a = match T0::parse(input) {
            Ok(a) => a,
            Err(e) => {
                return Err(e);
            },
        };
        let ghost mid = *input;
        match <(T1, T2, T3, T4, T5, T6, T7, T8) as Syntax<'a, E>>::parse(input) {
            Ok(rest) => {
                proof {
                    crate::lang::lemma_consumed_concat(pre, mid, *input);
                }
                let ghost whole = rest;
                let (x1, x2, x3, x4, x5, x6, x7, x8) = rest;
                let done: Result<Self, E> = Ok((a, x1, x2, x3, x4, x5, x6, x7, x8));
                proof {
                    assert(done->Ok_0.0 == a);
                    assert((done->Ok_0.1, done->Ok_0.2, done->Ok_0.3, done->Ok_0.4, done->Ok_0.5, done->Ok_0.6, done->Ok_0.7, done->Ok_0.8) == whole);
                    assert(T0::parsed(pre, mid, Ok(done->Ok_0.0)));
                }
                done
            },
            Err(e) => {
                proof {
                    crate::lang::lemma_consumed_concat(pre, mid, *input);
                    assert(T0::parsed(pre, mid, Ok(a)));
                }
                Err(e)
            },
        }
    }

    fn to_span(&self) -> (r: Span) {
        self.0.to_span().union(&self.1.to_span()).union(&self.2.to_span()).union(&self.3.to_span()).union(&self.4.to_span()).union(&self.5.to_span()).union(&self.6.to_span()).union(&self.7.to_span()).union(&self.8.to_span())
    }
}

/// The first element, then the remaining ones as a tuple.
impl<'a, E: ParseError, T0: Syntax<'a, E>, T1: Syntax<'a, E>, T2: Syntax<'a, E>, T3: Syntax<'a, E>, T4: Syntax<'a, E>, T5: Syntax<'a, E>, T6: Syntax<'a, E>, T7: Syntax<'a, E>, T8: Syntax<'a, E>, T9: Syntax<'a, E>> Syntax<'a, E> for (T0, T1, T2, T3, T4, T5, T6, T7, T8, T9) {
    open spec fn parsed(pre: TokenStream<'a>, post: TokenStream<'a>, r: Result<Self, E>) -> bool {
        match r {
            Ok(v) => exists|m: TokenStream<'a>|
                #[trigger] T0::parsed(pre, m, Ok(v.0)) && <(T1, T2, T3, T4, T5, T6, T7, T8, T9) as Syntax<'a, E>>::parsed(m, post, Ok((v.1, v.2, v.3, v.4, v.5, v.6, v.7, v.8, v.9))),
            Err(e) => T0::parsed(pre, post, Err(e)) || exists|m: TokenStream<'a>, a: T0|
                #[trigger] T0::parsed(pre, m, Ok(a)) && <(T1, T2, T3, T4, T5, T6, T7, T8, T9) as Syntax<'a, E>>::parsed(m, post, Err(e)),
        }
    }

    open spec fn span_spec(&self) -> Span {
        union_of(union_of(union_of(union_of(union_of(union_of(union_of(union_of(union_of(self.0.span_spec(), self.1.span_spec()), self.2.span_spec()), self.3.span_spec()), self.4.span_spec()), self.5.span_spec()), self.6.span_spec()), self.7.span_spec()), self.8.span_spec()), self.9.span_spec())
    }

    fn parse(input: &mut TokenStream<'a>) -> (r: Result<Self, E>) {
        let ghost pre = *input;
        let a = match T0::parse(input) {
            Ok(a) => a,
            Err(e) => {
                return Err(e);
            },
        };
        let ghost mid = *input;
        match <(T1, T2, T3, T4, T5, T6, T7, T8, T9) as Syntax<'a, E>>::parse(input) {
            Ok(rest) => {
                proof {
                    crate::lang::lemma_consumed_concat(pre, mid, *input);
                }
                let ghost whole = rest;
                let (x1, x2, x3, x4, x5, x6, x7, x8, x9) = rest;
                let done: Result<Self, E> = Ok((a, x1, x2, x3, x4, x5, x6, x7, x8, x9));
                proof {
                    assert(done->Ok_0.0 == a);
                    assert((done->Ok_0.1, done->Ok_0.2, done->Ok_0.3, done->Ok_0.4, done->Ok_0.5, done->Ok_0.6, done->Ok_0.7, done->Ok_0.8, done->Ok_0.9) == whole);
                    assert(T0::parsed(pre, mid, Ok(done->Ok_0.0)));
                }
                done
            },
            Err(e) => {
                proof {
                    crate::lang::lemma_consumed_concat(pre, mid, *input);
                    assert(T0::parsed(pre, mid, Ok(a)));
                }
                Err(e)
            },
        }
    }

    fn to_span(&self) -> (r: Span) {
        self.0.to_span().union(&self.1.to_span()).union(&self.2.to_span()).union(&self.3.to_span()).union(&self.4.to_span()).union(&self.5.to_span()).union(&self.6.to_span()).union(&self.7.to_span()).union(&self.8.to_span()).union(&self.9.to_span())
    }
}

/// The first element, then the remaining ones as a tuple.
impl<'a, E: ParseError, T0: Syntax<'a, E>, T1: Syntax<'a, E>, T2: Syntax<'a, E>, T3: Syntax<'a, E>, T4: Syntax<'a, E>, T5: Syntax<'a, E>, T6: Syntax<'a, E>, T7: Syntax<'a, E>, T8: Syntax<'a, E>, T9: Syntax<'a, E>, T10: Syntax<'a, E>> Syntax<'a, E> for (T0, T1, T2, T3, T4, T5, T6, T7, T8, T9, T10) {
    open spec fn parsed(pre: TokenStream<'a>, post: TokenStream<'a>, r: Result<Self, E>) -> bool {
        match r {
            Ok(v) => exists|m: TokenStream<'a>|
                #[trigger] T0::parsed(pre, m, Ok(v.0)) && <(T1, T2, T3, T4, T5, T6, T7, T8, T9, T10) as Syntax<'a, E>>::parsed(m, post, Ok((v.1, v.2, v.3, v.4, v.5, v.6, v.7, v.8, v.9, v.10))),
            Err(e) => T0::parsed(pre, post, Err(e)) || exists|m: TokenStream<'a>, a: T0|
                #[trigger] T0::parsed(pre, m, Ok(a)) && <(T1, T2, T3, T4, T5, T6, T7, T8, T9, T10) as Syntax<'a, E>>::parsed(m, post, Err(e)),
        }
    }

    open spec fn span_spec(&self) -> Span {
        union_of(union_of(union_of(union_of(union_of(union_of(union_of(union_of(union_of(union_of(self.0.span_spec(), self.1.span_spec()), self.2.span_spec()), self.3.span_spec()), self.4.span_spec()), self.5.span_spec()), self.6.span_spec()), self.7.span_spec()), self.8.span_spec()), self.9.span_spec()), self.10.span_spec())
    }

    fn parse(input: &mut TokenStream<'a>) -> (r: Result<Self, E>) {
        let ghost pre = *input;
        let a = match T0::parse(input) {
            Ok(a) => a,
            Err(e) => {
                return Err(e);
            },
        };
        let ghost mid = *input;
        match <(T1, T2, T3, T4, T5, T6, T7, T8, T9, T10) as Syntax<'a, E>>::parse(input) {
            Ok(rest) => {
                proof {
                    crate::lang::lemma_consumed_concat(pre, mid, *input);
                }
                let ghost whole = rest;
                let (x1, x2, x3, x4, x5, x6, x7, x8, x9, x10) = rest;
                let done: Result<Self, E> = Ok((a, x1, x2, x3, x4, x5, x6, x7, x8, x9, x10));
                proof {
                    assert(done->Ok_0.0 == a);
                    assert((done->Ok_0.1, done->Ok_0.2, done->Ok_0.3, done->Ok_0.4, done->Ok_0.5, done->Ok_0.6, done->Ok_0.7, done->Ok_0.8, done->Ok_0.9, done->Ok_0.10) == whole);
                    assert(T0::parsed(pre, mid, Ok(done->Ok_0.0)));
                }
                done
            },
            Err(e) => {
                proof {
                    crate::lang::lemma_consumed_concat(pre, mid, *input);
                    assert(T0::parsed(pre, mid, Ok(a)));
                }
                Err(e)
            },
        }
    }

    fn to_span(&self) -> (r: Span) {
        self.0.to_span().union(&self.1.to_span()).union(&self.2.to_span()).union(&self.3.to_span()).union(&self.4.to_span()).union(&self.5.to_span()).union(&self.6.to_span()).union(&self.7.to_span()).union(&self.8.to_span()).union(&self.9.to_span()).union(&self.10.to_span())
    }
}

/// The first element, then the remaining ones as a tuple.
impl<'a, E: ParseError, T0: Syntax<'a, E>, T1: Syntax<'a, E>, T2: Syntax<'a, E>, T3: Syntax<'a, E>, T4: Syntax<'a, E>, T5: Syntax<'a, E>, T6: Syntax<'a, E>, T7: Syntax<'a, E>, T8: Syntax<'a, E>, T9: Syntax<'a, E>, T10: Syntax<'a, E>, T11: Syntax<'a, E>> Syntax<'a, E> for (T0, T1, T2, T3, T4, T5, T6, T7, T8, T9, T10, T11) {
    open spec fn parsed(pre: TokenStream<'a>, post: TokenStream<'a>, r: Result<Self, E>) -> bool {
        match r {
            Ok(v) => exists|m: TokenStream<'a>|
                #[trigger] T0::parsed(pre, m, Ok(v.0)) && <(T1, T2, T3, T4, T5, T6, T7, T8, T9, T10, T11) as Syntax<'a, E>>::parsed(m, post, Ok((v.1, v.2, v.3, v.4, v.5, v.6, v.7, v.8, v.9, v.10, v.11))),
            Err(e) => T0::parsed(pre, post, Err(e)) || exists|m: TokenStream<'a>, a: T0|
                #[trigger] T0::parsed(pre, m, Ok(a)) && <(T1, T2, T3, T4, T5, T6, T7, T8, T9, T10, T11) as Syntax<'a, E>>::parsed(m, post, Err(e)),
        }
    }

    open spec fn span_spec(&self) -> Span {
        union_of(union_of(union_of(union_of(union_of(union_of(union_of(union_of(union_of(union_of(union_of(self.0.span_spec(), self.1.span_spec()), self.2.span_spec()), self.3.span_spec()), self.4.span_spec()), self.5.span_spec()), self.6.span_spec()), self.7.span_spec()), self.8.span_spec()), self.9.span_spec()), self.10.span_spec()), self.11.span_spec())
    }

    fn parse(input: &mut TokenStream<'a>) -> (r: Result<Self, E>) {
        let ghost pre = *input;
        let a = match T0::parse(input) {
            Ok(a) => a,
            Err(e) => {
                return Err(e);
            },
        };
        let ghost mid = *input;
        match <(T1, T2, T3, T4, T5, T6, T7, T8, T9, T10, T11) as Syntax<'a, E>>::parse(input) {
            Ok(rest) => {
                proof {
                    crate::lang::lemma_consumed_concat(pre, mid, *input);
                }
                let ghost whole = rest;
                let (x1, x2, x3, x4, x5, x6, x7, x8, x9, x10, x11) = rest;
                let done: Result<Self, E> = Ok((a, x1, x2, x3, x4, x5, x6, x7, x8, x9, x10, x11));
                proof {
                    assert(done->Ok_0.0 == a);
                    assert((done->Ok_0.1, done->Ok_0.2, done->Ok_0.3, done->Ok_0.4, done->Ok_0.5, done->Ok_0.6, done->Ok_0.7, done->Ok_0.8, done->Ok_0.9, done->Ok_0.10, done->Ok_0.11) == whole);
                    assert(T0::parsed(pre, mid, Ok(done->Ok_0.0)));
                }
                done
            },
            Err(e) => {
                proof {
                    crate::lang::lemma_consumed_concat(pre, mid, *input);
                    assert(T0::parsed(pre, mid, Ok(a)));
                }
                Err(e)
            },
        }
    }

    fn to_span(&self) -> (r: Span) {
        self.0.to_span().union(&self.1.to_span()).union(&self.2.to_span()).union(&self.3.to_span()).union(&self.4.to_span()).union(&self.5.to_span()).union(&self.6.to_span()).union(&self.7.to_span()).union(&self.8.to_span()).union(&self.9.to_span()).union(&self.10.to_span()).union(&self.11.to_span())
    }
}

/// The first element, then the remaining ones as a tuple.
impl<'a, E: ParseError, T0: Syntax<'a, E>, T1: Syntax<'a, E>, T2: Syntax<'a, E>, T3: Syntax<'a, E>, T4: Syntax<'a, E>, T5: Syntax<'a, E>, T6: Syntax<'a, E>, T7: Syntax<'a, E>, T8: Syntax<'a, E>, T9: Syntax<'a, E>, T10: Syntax<'a, E>, T11: Syntax<'a, E>, T12: Syntax<'a, E>> Syntax<'a, E> for (T0, T1, T2, T3, T4, T5, T6, T7, T8, T9, T10, T11, T12) {
    open spec fn parsed(pre: TokenStream<'a>, post: TokenStream<'a>, r: Result<Self, E>) -> bool {
        match r {
            Ok(v) => exists|m: TokenStream<'a>|
                #[trigger] T0::parsed(pre, m, Ok(v.0)) && <(T1, T2, T3, T4, T5, T6, T7, T8, T9, T10, T11, T12) as Syntax<'a, E>>::parsed(m, post, Ok((v.1, v.2, v.3, v.4, v.5, v.6, v.7, v.8, v.9, v.10, v.11, v.12))),
            Err(e) => T0::parsed(pre, post, Err(e)) || exists|m: TokenStream<'a>, a: T0|
                #[trigger] T0::parsed(pre, m, Ok(a)) && <(T1, T2, T3, T4, T5, T6, T7, T8, T9, T10, T11, T12) as Syntax<'a, E>>::parsed(m, post, Err(e)),
        }
    }

    open spec fn span_spec(&self) -> Span {
        union_of(union_of(union_of(union_of(union_of(union_of(union_of(union_of(union_of(union_of(union_of(union_of(self.0.span_spec(), self.1.span_spec()), self.2.span_spec()), self.3.span_spec()), self.4.span_spec()), self.5.span_spec()), self.6.span_spec()), self.7.span_spec()), self.8.span_spec()), self.9.span_spec()), self.10.span_spec()), self.11.span_spec()), self.12.span_spec())
    }

    fn parse(input: &mut TokenStream<'a>) -> (r: Result<Self, E>) {
        let ghost pre = *input;
        let a = match T0::parse(input) {
            Ok(a) => a,
            Err(e) => {
                return Err(e);
            },
        };
        let ghost mid = *input;
        match <(T1, T2, T3, T4, T5, T6, T7, T8, T9, T10, T11, T12) as Syntax<'a, E>>::parse(input) {
            Ok(rest) => {
                proof {
                    crate::lang::lemma_consumed_concat(pre, mid, *input);
                }
                let ghost whole = rest;
                let (x1, x2, x3, x4, x5, x6, x7, x8, x9, x10, x11, x12) = rest;
                let done: Result<Self, E> = Ok((a, x1, x2, x3, x4, x5, x6, x7, x8, x9, x10, x11, x12));
                proof {
                    assert(done->Ok_0.0 == a);
                    assert((done->Ok_0.1, done->Ok_0.2, done->Ok_0.3, done->Ok_0.4, done->Ok_0.5, done->Ok_0.6, done->Ok_0.7, done->Ok_0.8, done->Ok_0.9, done->Ok_0.10, done->Ok_0.11, done->Ok_0.12) == whole);
                    assert(T0::parsed(pre, mid, Ok(done->Ok_0.0)));
                }
                done
            },
            Err(e) => {
                proof {
                    crate::lang::lemma_consumed_concat(pre, mid, *input);
                    assert(T0::parsed(pre, mid, Ok(a)));
                }
                Err(e)
            },
        }
    }

    fn to_span(&self) -> (r: Span) {
        self.0.to_span().union(&self.1.to_span()).union(&self.2.to_span()).union(&self.3.to_span()).union(&self.4.to_span()).union(&self.5.to_span()).union(&self.6.to_span()).union(&self.7.to_span()).union(&self.8.to_span()).union(&self.9.to_span()).union(&self.10.to_span()).union(&self.11.to_span()).union(&self.12.to_span())
    }
}

/// The first element, then the remaining ones as a tuple.
impl<'a, E: ParseError, T0: Syntax<'a, E>, T1: Syntax<'a, E>, T2: Syntax<'a, E>, T3: Syntax<'a, E>, T4: Syntax<'a, E>, T5: Syntax<'a, E>, T6: Syntax<'a, E>, T7: Syntax<'a, E>, T8: Syntax<'a, E>, T9: Syntax<'a, E>, T10: Syntax<'a, E>, T11: Syntax<'a, E>, T12: Syntax<'a, E>, T13: Syntax<'a, E>> Syntax<'a, E> for (T0, T1, T2, T3, T4, T5, T6, T7, T8, T9, T10, T11, T12, T13) {
    open spec fn parsed(pre: TokenStream<'a>, post: TokenStream<'a>, r: Result<Self, E>) -> bool {
        match r {
            Ok(v) => exists|m: TokenStream<'a>|
                #[trigger] T0::parsed(pre, m, Ok(v.0)) && <(T1, T2, T3, T4, T5, T6, T7, T8, T9, T10, T11, T12, T13) as Syntax<'a, E>>::parsed(m, post, Ok((v.1, v.2, v.3, v.4, v.5, v.6, v.7, v.8, v.9, v.10, v.11, v.12, v.13))),
            Err(e) => T0::parsed(pre, post, Err(e)) || exists|m: TokenStream<'a>, a: T0|
                #[trigger] T0::parsed(pre, m, Ok(a)) && <(T1, T2, T3, T4, T5, T6, T7, T8, T9, T10, T11, T12, T13) as Syntax<'a, E>>::parsed(m, post, Err(e)),
        }
    }

    open spec fn span_spec(&self) -> Span {
        union_of(union_of(union_of(union_of(union_of(union_of(union_of(union_of(union_of(union_of(union_of(union_of(union_of(self.0.span_spec(), self.1.span_spec()), self.2.span_spec()), self.3.span_spec()), self.4.span_spec()), self.5.span_spec()), self.6.span_spec()), self.7.span_spec()), self.8.span_spec()), self.9.span_spec()), self.10.span_spec()), self.11.span_spec()), self.12.span_spec()), self.13.span_spec())
    }

    fn parse(input: &mut TokenStream<'a>) -> (r: Result<Self, E>) {
        let ghost pre = *input;
        let a = match T0::parse(input) {
            Ok(a) => a,
            Err(e) => {
                return Err(e);
            },
        };
        let ghost mid = *input;
        match <(T1, T2, T3, T4, T5, T6, T7, T8, T9, T10, T11, T12, T13) as Syntax<'a, E>>::parse(input) {
            Ok(rest) => {
                proof {
                    crate::lang::lemma_consumed_concat(pre, mid, *input);
                }
                let ghost whole = rest;
                let (x1, x2, x3, x4, x5, x6, x7, x8, x9, x10, x11, x12, x13) = rest;
                let done: Result<Self, E> = Ok((a, x1, x2, x3, x4, x5, x6, x7, x8, x9, x10, x11, x12, x13));
                proof {
                    assert(done->Ok_0.0 == a);
                    assert((done->Ok_0.1, done->Ok_0.2, done->Ok_0.3, done->Ok_0.4, done->Ok_0.5, done->Ok_0.6, done->Ok_0.7, done->Ok_0.8, done->Ok_0.9, done->Ok_0.10, done->Ok_0.11, done->Ok_0.12, done->Ok_0.13) == whole);
                    assert(T0::parsed(pre, mid, Ok(done->Ok_0.0)));
                }
                done
            },
            Err(e) => {
                proof {
                    crate::lang::lemma_consumed_concat(pre, mid, *input);
                    assert(T0::parsed(pre, mid, Ok(a)));
                }
                Err(e)
            },
        }
    }

    fn to_span(&self) -> (r: Span) {
        self.0.to_span().union(&self.1.to_span()).union(&self.2.to_span()).union(&self.3.to_span()).union(&self.4.to_span()).union(&self.5.to_span()).union(&self.6.to_span()).union(&self.7.to_span()).union(&self.8.to_span()).union(&self.9.to_span()).union(&self.10.to_span()).union(&self.11.to_span()).union(&self.12.to_span()).union(&self.13.to_span())
    }
}

/// The first element, then the remaining ones as a tuple.
impl<'a, E: ParseError, T0: Syntax<'a, E>, T1: Syntax<'a, E>, T2: Syntax<'a, E>, T3: Syntax<'a, E>, T4: Syntax<'a, E>, T5: Syntax<'a, E>, T6: Syntax<'a, E>, T7: Syntax<'a, E>, T8: Syntax<'a, E>, T9: Syntax<'a, E>, T10: Syntax<'a, E>, T11: Syntax<'a, E>, T12: Syntax<'a, E>, T13: Syntax<'a, E>, T14: Syntax<'a, E>> Syntax<'a, E> for (T0, T1, T2, T3, T4, T5, T6, T7, T8, T9, T10, T11, T12, T13, T14) {
    open spec fn parsed(pre: TokenStream<'a>, post: TokenStream<'a>, r: Result<Self, E>) -> bool {
        match r {
            Ok(v) => exists|m: TokenStream<'a>|
                #[trigger] T0::parsed(pre, m, Ok(v.0)) && <(T1, T2, T3, T4, T5, T6, T7, T8, T9, T10, T11, T12, T13, T14) as Syntax<'a, E>>::parsed(m, post, Ok((v.1, v.2, v.3, v.4, v.5, v.6, v.7, v.8, v.9, v.10, v.11, v.12, v.13, v.14))),
            Err(e) => T0::parsed(pre, post, Err(e)) || exists|m: TokenStream<'a>, a: T0|
                #[trigger] T0::parsed(pre, m, Ok(a)) && <(T1, T2, T3, T4, T5, T6, T7, T8, T9, T10, T11, T12, T13, T14) as Syntax<'a, E>>::parsed(m, post, Err(e)),
        }
    }

    open spec fn span_spec(&self) -> Span {
        union_of(union_of(union_of(union_of(union_of(union_of(union_of(union_of(union_of(union_of(union_of(union_of(union_of(union_of(self.0.span_spec(), self.1.span_spec()), self.2.span_spec()), self.3.span_spec()), self.4.span_spec()), self.5.span_spec()), self.6.span_spec()), self.7.span_spec()), self.8.span_spec()), self.9.span_spec()), self.10.span_spec()), self.11.span_spec()), self.12.span_spec()), self.13.span_spec()), self.14.span_spec())
    }

    fn parse(input: &mut TokenStream<'a>) -> (r: Result<Self, E>) {
        let ghost pre = *input;
        let a = match T0::parse(input) {
            Ok(a) => a,
            Err(e) => {
                return Err(e);
            },
        };
        let ghost mid = *input;
        match <(T1, T2, T3, T4, T5, T6, T7, T8, T9, T10, T11, T12, T13, T14) as Syntax<'a, E>>::parse(input) {
            Ok(rest) => {
                proof {
                    crate::lang::lemma_consumed_concat(pre, mid, *input);
                }
                let ghost whole = rest;
                let (x1, x2, x3, x4, x5, x6, x7, x8, x9, x10, x11, x12, x13, x14) = rest;
                let done: Result<Self, E> = Ok((a, x1, x2, x3, x4, x5, x6, x7, x8, x9, x10, x11, x12, x13, x14));
                proof {
                    assert(done->Ok_0.0 == a);
                    assert((done->Ok_0.1, done->Ok_0.2, done->Ok_0.3, done->Ok_0.4, done->Ok_0.5, done->Ok_0.6, done->Ok_0.7, done->Ok_0.8, done->Ok_0.9, done->Ok_0.10, done->Ok_0.11, done->Ok_0.12, done->Ok_0.13, done->Ok_0.14) == whole);
                    assert(T0::parsed(pre, mid, Ok(done->Ok_0.0)));
                }
                done
            },
            Err(e) => {
                proof {
                    crate::lang::lemma_consumed_concat(pre, mid, *input);
                    assert(T0::parsed(pre, mid, Ok(a)));
                }
                Err(e)
            },
        }
    }

    fn to_span(&self) -> (r: Span) {
        self.0.to_span().union(&self.1.to_span()).union(&self.2.to_span()).union(&self.3.to_span()).union(&self.4.to_span()).union(&self.5.to_span()).union(&self.6.to_span()).union(&self.7.to_span()).union(&self.8.to_span()).union(&self.9.to_span()).union(&self.10.to_span()).union(&self.11.to_span()).union(&self.12.to_span()).union(&self.13.to_span()).union(&self.14.to_span())
    }
}

/// The first element, then the remaining ones as a tuple.
impl<'a, E: ParseError, T0: Syntax<'a, E>, T1: Syntax<'a, E>, T2: Syntax<'a, E>, T3: Syntax<'a, E>, T4: Syntax<'a, E>, T5: Syntax<'a, E>, T6: Syntax<'a, E>, T7: Syntax<'a, E>, T8: Syntax<'a, E>, T9: Syntax<'a, E>, T10: Syntax<'a, E>, T11: Syntax<'a, E>, T12: Syntax<'a, E>, T13: Syntax<'a, E>, T14: Syntax<'a, E>, T15: Syntax<'a, E>> Syntax<'a, E> for (T0, T1, T2, T3, T4, T5, T6, T7, T8, T9, T10, T11, T12, T13, T14, T15) {
    open spec fn parsed(pre: TokenStream<'a>, post: TokenStream<'a>, r: Result<Self, E>) -> bool {
        match r {
            Ok(v) => exists|m: TokenStream<'a>|
                #[trigger] T0::parsed(pre, m, Ok(v.0)) && <(T1, T2, T3, T4, T5, T6, T7, T8, T9, T10, T11, T12, T13, T14, T15) as Syntax<'a, E>>::parsed(m, post, Ok((v.1, v.2, v.3, v.4, v.5, v.6, v.7, v.8, v.9, v.10, v.11, v.12, v.13, v.14, v.15))),
            Err(e) => T0::parsed(pre, post, Err(e)) || exists|m: TokenStream<'a>, a: T0|
                #[trigger] T0::parsed(pre, m, Ok(a)) && <(T1, T2, T3, T4, T5, T6, T7, T8, T9, T10, T11, T12, T13, T14, T15) as Syntax<'a, E>>::parsed(m, post, Err(e)),
        }
    }

    open spec fn span_spec(&self) -> Span {
        union_of(union_of(union_of(union_of(union_of(union_of(union_of(union_of(union_of(union_of(union_of(union_of(union_of(union_of(union_of(self.0.span_spec(), self.1.span_spec()), self.2.span_spec()), self.3.span_spec()), self.4.span_spec()), self.5.span_spec()), self.6.span_spec()), self.7.span_spec()), self.8.span_spec()), self.9.span_spec()), self.10.span_spec()), self.11.span_spec()), self.12.span_spec()), self.13.span_spec()), self.14.span_spec()), self.15.span_spec())
    }

    fn parse(input: &mut TokenStream<'a>) -> (r: Result<Self, E>) {
        let ghost pre = *input;
        let a = match T0::parse(input) {
            Ok(a) => a,
            Err(e) => {
                return Err(e);
            },
        };
        let ghost mid = *input;
        match <(T1, T2, T3, T4, T5, T6, T7, T8, T9, T10, T11, T12, T13, T14, T15) as Syntax<'a, E>>::parse(input) {
            Ok(rest) => {
                proof {
                    crate::lang::lemma_consumed_concat(pre, mid, *input);
                }
                let ghost whole = rest;
                let (x1, x2, x3, x4, x5, x6, x7, x8, x9, x10, x11, x12, x13, x14, x15) = rest;
                let done: Result<Self, E> = Ok((a, x1, x2, x3, x4, x5, x6, x7, x8, x9, x10, x11, x12, x13, x14, x15));
                proof {
                    assert(done->Ok_0.0 == a);
                    assert((done->Ok_0.1, done->Ok_0.2, done->Ok_0.3, done->Ok_0.4, done->Ok_0.5, done->Ok_0.6, done->Ok_0.7, done->Ok_0.8, done->Ok_0.9, done->Ok_0.10, done->Ok_0.11, done->Ok_0.12, done->Ok_0.13, done->Ok_0.14, done->Ok_0.15) == whole);
                    assert(T0::parsed(pre, mid, Ok(done->Ok_0.0)));
                }
                done
            },
            Err(e) => {
                proof {
                    crate::lang::lemma_consumed_concat(pre, mid, *input);
                    assert(T0::parsed(pre, mid, Ok(a)));
                }
                Err(e)
            },
        }
    }

    fn to_span(&self) -> (r: Span) {
        self.0.to_span().union(&self.1.to_span()).union(&self.2.to_span()).union(&self.3.to_span()).union(&self.4.to_span()).union(&self.5.to_span()).union(&self.6.to_span()).union(&self.7.to_span()).union(&self.8.to_span()).union(&self.9.to_span()).union(&self.10.to_span()).union(&self.11.to_span()).union(&self.12.to_span()).union(&self.13.to_span()).union(&self.14.to_span()).union(&self.15.to_span())
    }
}

} // verus!
