//! Pattern sequences of the token-based pattern grammar.
use vstd::prelude::*;

use crate::errors::{ControlFlow, Kind, ParseError};
use crate::lang::{advances, TokenStream};
use crate::pattex::bytes::{rest, seg, skip, take_class, ByteClass};
use crate::pattex::bytes::{PAREN_END, PAREN_START};
use crate::pattex::errors::{regex_flow, RegexError};
use crate::pattex::pattern::class::Chars;
use crate::pattex::pattern::escape::Escape;
use crate::pattex::pattern::repeat::Repeat;
use crate::pattex::pattern::token::{BracketEnd, BracketStart, Caret, ParenEnd, ParenStart, Plus, Question, Star};
use crate::span::{union_of, Span};
use crate::syntax::{fails_fatally, fails_softly, Delimiter, Syntax};

verus! {

/// A non-empty run of literal pattern text.
#[derive(Debug, PartialEq, Eq, PartialOrd, Ord, Clone)]
pub struct PatternChars<'a>(pub TokenStream<'a>);

impl<'a> Syntax<'a, RegexError> for PatternChars<'a> {
    /// The longest run of text bytes; a recoverable error where there is none.
    open spec fn parsed(pre: TokenStream<'a>, post: TokenStream<'a>, r: Result<Self, RegexError>) -> bool {
        let n = skip(pre.value@, 0, ByteClass::Text);
        if n > 0 {
            r is Ok && seg(pre, 0, n, r->Ok_0.0) && rest(pre, n, post)
        } else {
            r == Err::<Self, RegexError>(
                RegexError::Other(Kind::Token("PatternChars", ControlFlow::Recovable, pre.span_at(0))),
            )
        }
    }

    open spec fn span_spec(&self) -> Span {
        self.0.span_of()
    }

    fn parse(input: &mut TokenStream<'a>) -> (r: Result<Self, RegexError>) {
        let span = input.to_span_at(0);
        let text = take_class(input, ByteClass::Text);
        if text.is_empty() {
            return Err(RegexError::Other(Kind::Token("PatternChars", ControlFlow::Recovable, span)));
        }
        Ok(PatternChars(text))
    }

    fn to_span(&self) -> (r: Span) {
        self.0.to_span()
    }
}

/// Characters of a class.
pub type ClassChars<'a> = Chars<'a>;

/// The body of a class: an optional `^` and the class characters.
pub type ClassBody<'a> = (Option<Caret<'a>>, Vec<Chars<'a>>);

/// A character class between brackets.
#[derive(Debug, PartialEq, Eq, PartialOrd, Ord, Clone)]
pub struct Class<'a>(pub Delimiter<BracketStart<'a>, BracketEnd<'a>, ClassBody<'a>>);

impl<'a> Syntax<'a, RegexError> for Class<'a> {
    open spec fn parsed(pre: TokenStream<'a>, post: TokenStream<'a>, r: Result<Self, RegexError>) -> bool {
        <Delimiter<BracketStart<'a>, BracketEnd<'a>, ClassBody<'a>> as Syntax<'a, RegexError>>::parsed(
            pre,
            post,
            match r {
                Ok(c) => Ok(c.0),
                Err(e) => Err(e),
            },
        )
    }

    open spec fn span_spec(&self) -> Span {
        self.0.span_spec()
    }

    fn parse(input: &mut TokenStream<'a>) -> (r: Result<Self, RegexError>) {
        match <Delimiter<BracketStart<'a>, BracketEnd<'a>, ClassBody<'a>> as Syntax<'a, RegexError>>::parse(input) {
            Ok(d) => Ok(Class(d)),
            Err(e) => Err(e),
        }
    }

    fn to_span(&self) -> (r: Span) {
        self.0.to_span()
    }
}

/// A capture group: a pattern sequence between parentheses.
pub type Capture<'a> = Delimiter<ParenStart<'a>, ParenEnd<'a>, Vec<Pattern<'a>>>;

/// A pattern sequence element.
#[derive(Debug, PartialEq, Eq, PartialOrd, Ord)]
pub enum Pattern<'a> {
    /// Literal text.
    Chars(PatternChars<'a>),
    /// An escape sequence.
    Escap(Escape<'a>),
    /// A capture of a sub-pattern sequence.
    Capture(Capture<'a>),
    /// A repeat quantifier.
    Repeat(Repeat<'a>),
    /// `*`
    Star(Star<'a>),
    /// `?`
    Question(Question<'a>),
    /// `+`
    Plus(Plus<'a>),
    /// A character class.
    Class(Class<'a>),
}

/// The capture alternative fails at `pre` without being fatal: no `(` there.
pub open spec fn capture_fails_softly(pre: TokenStream) -> bool {
    !(pre.value@.len() > 0 && pre.value@[0] == PAREN_START)
}

/// The first `k` alternatives of `Pattern`, in declaration order, fail at
/// `pre` without being fatal.
pub open spec fn first_fail_softly<'a>(pre: TokenStream<'a>, k: int) -> bool {
    &&& k > 0 ==> fails_softly::<RegexError, PatternChars<'a>>(pre)
    &&& k > 1 ==> fails_softly::<RegexError, Escape<'a>>(pre)
    &&& k > 2 ==> capture_fails_softly(pre)
    &&& k > 3 ==> fails_softly::<RegexError, Repeat<'a>>(pre)
    &&& k > 4 ==> fails_softly::<RegexError, Star<'a>>(pre)
    &&& k > 5 ==> fails_softly::<RegexError, Question<'a>>(pre)
    &&& k > 6 ==> fails_softly::<RegexError, Plus<'a>>(pre)
    &&& k > 7 ==> fails_softly::<RegexError, Class<'a>>(pre)
}

/// Alternative `k` of `Pattern` fails at `pre` with the fatal error `e`. A
/// capture fails fatally only after its `(` matched.
pub open spec fn alternative_fails_fatally<'a>(pre: TokenStream<'a>, k: int, e: RegexError) -> bool {
    if k == 0 {
        fails_fatally::<RegexError, PatternChars<'a>>(pre, e)
    } else if k == 1 {
        fails_fatally::<RegexError, Escape<'a>>(pre, e)
    } else if k == 2 {
        !capture_fails_softly(pre) && regex_flow(e) == ControlFlow::Fatal
    } else if k == 3 {
        fails_fatally::<RegexError, Repeat<'a>>(pre, e)
    } else if k == 4 {
        fails_fatally::<RegexError, Star<'a>>(pre, e)
    } else if k == 5 {
        fails_fatally::<RegexError, Question<'a>>(pre, e)
    } else if k == 6 {
        fails_fatally::<RegexError, Plus<'a>>(pre, e)
    } else {
        fails_fatally::<RegexError, Class<'a>>(pre, e)
    }
}

/// The brackets of a capture parsed from `pre` to `post`: its `(` is the
/// first byte and its `)` the last byte consumed.
pub open spec fn capture_brackets<'a>(pre: TokenStream<'a>, post: TokenStream<'a>, d: Capture<'a>) -> bool {
    &&& !capture_fails_softly(pre)
    &&& seg(pre, 0, 1, d.start.0)
    &&& d.end.0.value@ == seq![PAREN_END]
    &&& d.end.0.offset + 1 == post.offset
    &&& pre.offset < d.end.0.offset
}

/// A pattern element parsed from `pre` to `post`, by the rules of
/// `pattern_parsed`, except that of a capture only the brackets are stated.
pub open spec fn pattern_shallow<'a>(pre: TokenStream<'a>, post: TokenStream<'a>, v: Pattern<'a>) -> bool {
    match v {
        Pattern::Chars(v) => PatternChars::parsed(pre, post, Ok(v)),
        Pattern::Escap(v) => first_fail_softly(pre, 1) && Escape::parsed(pre, post, Ok(v)),
        Pattern::Capture(v) => first_fail_softly(pre, 2) && capture_brackets(pre, post, v),
        Pattern::Repeat(v) => first_fail_softly(pre, 3) && Repeat::parsed(pre, post, Ok(v)),
        Pattern::Star(v) => first_fail_softly(pre, 4) && Star::parsed(pre, post, Ok(v)),
        Pattern::Question(v) => first_fail_softly(pre, 5) && Question::parsed(pre, post, Ok(v)),
        Pattern::Plus(v) => first_fail_softly(pre, 6) && Plus::parsed(pre, post, Ok(v)),
        Pattern::Class(v) => first_fail_softly(pre, 7) && Class::parsed(pre, post, Ok(v)),
    }
}

/// `cs` are the cursors between the successive elements `items`, from `pre`
/// to `post`, each advanced from `pre`.
pub open spec fn body_chain<'a>(
    pre: TokenStream<'a>,
    post: TokenStream<'a>,
    items: Seq<Pattern<'a>>,
    cs: Seq<TokenStream<'a>>,
) -> bool {
    &&& cs.len() == items.len() + 1
    &&& cs[0] == pre
    &&& cs[items.len() as int] == post
    &&& forall|i: int| 0 <= i <= items.len() ==> advances(pre, #[trigger] cs[i])
    &&& forall|i: int| 0 <= i < items.len() ==> pattern_shallow(cs[i], cs[i + 1], #[trigger] items[i])
}

/// The elements `items` were parsed one after another from `pre`, and the run
/// ended at `post`, where no alternative of a pattern element matches.
pub open spec fn body_parsed<'a>(pre: TokenStream<'a>, post: TokenStream<'a>, items: Seq<Pattern<'a>>) -> bool {
    &&& exists|cs: Seq<TokenStream<'a>>| #[trigger] body_chain(pre, post, items, cs)
    &&& first_fail_softly(post, 8)
}

/// Inside the capture `d` parsed from `pre` to `post`: the body was parsed
/// from `ck`, just after the `(`, to `m`, where the `)` stands.
pub open spec fn capture_inner<'a>(
    pre: TokenStream<'a>,
    ck: TokenStream<'a>,
    m: TokenStream<'a>,
    post: TokenStream<'a>,
    d: Capture<'a>,
) -> bool {
    &&& rest(pre, 1, ck)
    &&& body_parsed(ck, m, d.body@)
    &&& seg(m, 0, 1, d.end.0)
    &&& rest(m, 1, post)
}

/// A capture parsed from `pre` to `post`: its brackets, and between them the
/// body, parsed element after element up to where none matches. (Each body
/// element is stated as `pattern_shallow` states it: a capture nested in the
/// body has its brackets stated, not its own body.)
pub open spec fn capture_parsed<'a>(pre: TokenStream<'a>, post: TokenStream<'a>, d: Capture<'a>) -> bool {
    &&& capture_brackets(pre, post, d)
    &&& exists|ck: TokenStream<'a>, m: TokenStream<'a>| #[trigger] capture_inner(pre, ck, m, post, d)
}

/// The outcome of parsing a pattern element from `pre`. The alternatives are
/// tried in declaration order: the first that matches is taken; a fatal
/// failure ends the attempt; when none matches the error names `Pattern` and
/// leaves the cursor where it was.
pub open spec fn pattern_parsed<'a>(pre: TokenStream<'a>, post: TokenStream<'a>, r: Result<Pattern<'a>, RegexError>) -> bool {
    match r {
        Ok(Pattern::Chars(v)) => PatternChars::parsed(pre, post, Ok(v)),
        Ok(Pattern::Escap(v)) => first_fail_softly(pre, 1) && Escape::parsed(pre, post, Ok(v)),
        Ok(Pattern::Capture(v)) => first_fail_softly(pre, 2) && capture_parsed(pre, post, v),
        Ok(Pattern::Repeat(v)) => first_fail_softly(pre, 3) && Repeat::parsed(pre, post, Ok(v)),
        Ok(Pattern::Star(v)) => first_fail_softly(pre, 4) && Star::parsed(pre, post, Ok(v)),
        Ok(Pattern::Question(v)) => first_fail_softly(pre, 5) && Question::parsed(pre, post, Ok(v)),
        Ok(Pattern::Plus(v)) => first_fail_softly(pre, 6) && Plus::parsed(pre, post, Ok(v)),
        Ok(Pattern::Class(v)) => first_fail_softly(pre, 7) && Class::parsed(pre, post, Ok(v)),
        Err(e) => {
            ||| exists|k: int| 0 <= k < 8 && first_fail_softly(pre, k) && #[trigger] alternative_fails_fatally(pre, k, e)
            ||| first_fail_softly(pre, 8) && e == RegexError::Other(
                Kind::Syntax("Pattern", ControlFlow::Recovable, pre.span_of()),
            ) && post == pre
        },
    }
}

/// The span of a pattern element.
pub open spec fn pattern_span(p: Pattern) -> Span {
    match p {
        Pattern::Chars(v) => v.span_spec(),
        Pattern::Escap(v) => v.span_spec(),
        Pattern::Capture(v) => union_of(v.start.0.span_of(), v.end.0.span_of()),
        Pattern::Repeat(v) => v.span_spec(),
        Pattern::Star(v) => v.span_spec(),
        Pattern::Question(v) => v.span_spec(),
        Pattern::Plus(v) => v.span_spec(),
        Pattern::Class(v) => v.span_spec(),
    }
}

/// The span of a parsed pattern element is exactly the range of bytes it
/// consumed: from where parsing started to where it stopped.
pub proof fn lemma_pattern_span_is_consumed<'a>(pre: TokenStream<'a>, post: TokenStream<'a>, v: Pattern<'a>)
    requires
        pre.wf(),
        pattern_parsed(pre, post, Ok(v)),
    ensures
        pattern_span(v) == Span::Range(pre.offset, post.offset),
{
    match v {
        Pattern::Class(c) => {
            let (m1, m2) = choose|m1: TokenStream<'a>, m2: TokenStream<'a>|
                crate::syntax::delimited::<RegexError, BracketStart<'a>, BracketEnd<'a>, ClassBody<'a>>(
                    pre,
                    m1,
                    m2,
                    post,
                    c.0,
                );
            let m = choose|m: TokenStream<'a>|
                <Option<Caret<'a>> as Syntax<'a, RegexError>>::parsed(m1, m, Ok(c.0.body.0))
                    && <Vec<Chars<'a>> as Syntax<'a, RegexError>>::parsed(m, m2, Ok(c.0.body.1));
            let cs = choose|cs: Seq<TokenStream<'a>>|
                #[trigger] crate::syntax::many_ended::<RegexError, Chars<'a>>(m, m2, c.0.body.1@, cs);
            // The class body lies between the brackets.
            assert(advances(m, cs[c.0.body.1@.len() as int]));
            assert(c.0.start.span_spec() == Span::Range(pre.offset, m1.offset));
            assert(c.0.end.span_spec() == Span::Range(m2.offset, post.offset));
        },
        Pattern::Repeat(_) => {
            reveal(crate::pattex::pattern::repeat::upper_parsed);
        },
        _ => {},
    }
}

/// A parsed pattern element consumed at least one byte, and is stated by
/// `pattern_shallow` too.
pub proof fn lemma_pattern_consumes<'a>(pre: TokenStream<'a>, post: TokenStream<'a>, v: Pattern<'a>)
    requires
        pattern_parsed(pre, post, Ok(v)),
    ensures
        post.offset > pre.offset,
        pattern_shallow(pre, post, v),
{
    match v {
        Pattern::Class(c) => {
            let (m1, m2) = choose|m1: TokenStream<'a>, m2: TokenStream<'a>|
                crate::syntax::delimited::<RegexError, BracketStart<'a>, BracketEnd<'a>, ClassBody<'a>>(
                    pre,
                    m1,
                    m2,
                    post,
                    c.0,
                );
            let m = choose|m: TokenStream<'a>|
                <Option<Caret<'a>> as Syntax<'a, RegexError>>::parsed(m1, m, Ok(c.0.body.0))
                    && <Vec<Chars<'a>> as Syntax<'a, RegexError>>::parsed(m, m2, Ok(c.0.body.1));
            let cs = choose|cs: Seq<TokenStream<'a>>|
                #[trigger] crate::syntax::many_ended::<RegexError, Chars<'a>>(m, m2, c.0.body.1@, cs);
            assert(advances(m, cs[c.0.body.1@.len() as int]));
        },
        Pattern::Repeat(_) => {
            reveal(crate::pattex::pattern::repeat::upper_parsed);
        },
        _ => {},
    }
}

impl<'a> Syntax<'a, RegexError> for Pattern<'a> {
    open spec fn parsed(pre: TokenStream<'a>, post: TokenStream<'a>, r: Result<Self, RegexError>) -> bool {
        pattern_parsed(pre, post, r)
    }

    open spec fn span_spec(&self) -> Span {
        pattern_span(*self)
    }

    fn parse(input: &mut TokenStream<'a>) -> (r: Result<Self, RegexError>) {
        parse_pattern(input)
    }

    fn to_span(&self) -> (r: Span) {
        match self {
            Pattern::Chars(v) => v.to_span(),
            Pattern::Escap(v) => v.to_span(),
            Pattern::Capture(v) => v.start.to_span().union(&v.end.to_span()),
            Pattern::Repeat(v) => v.to_span(),
            Pattern::Star(v) => v.to_span(),
            Pattern::Question(v) => v.to_span(),
            Pattern::Plus(v) => v.to_span(),
            Pattern::Class(v) => v.to_span(),
        }
    }
}

/// Parses a pattern element.
fn parse_pattern<'a>(input: &mut TokenStream<'a>) -> (r: Result<Pattern<'a>, RegexError>)
    requires
        old(input).wf(),
    ensures
        final(input).wf(),
        advances(*old(input), *final(input)),
        pattern_parsed(*old(input), *final(input), r),
    decreases old(input).value@.len(), 2int,
{
    let ghost pre = *input;
    proof {
        crate::lang::lemma_advances_refl(pre);
    }
    match crate::syntax::ok::<RegexError, PatternChars<'a>>(input) {
        Ok(Some(v)) => {
            return Ok(Pattern::Chars(v));
        },
        Ok(None) => {},
        Err(e) => {
            proof {
                assert(alternative_fails_fatally(pre, 0, e));
            }
            return Err(e);
        },
    }
    match crate::syntax::ok::<RegexError, Escape<'a>>(input) {
        Ok(Some(v)) => {
            return Ok(Pattern::Escap(v));
        },
        Ok(None) => {},
        Err(e) => {
            proof {
                assert(alternative_fails_fatally(pre, 1, e));
            }
            return Err(e);
        },
    }
    let opens = match input.first() {
        Some(c) => c == PAREN_START,
        None => false,
    };
    if opens {
        let r = parse_capture(input);
        proof {
            if r is Err {
                assert(alternative_fails_fatally(pre, 2, r->Err_0));
            }
        }
        return match r {
            Ok(d) => Ok(Pattern::Capture(d)),
            Err(e) => Err(e),
        };
    }
    match crate::syntax::ok::<RegexError, Repeat<'a>>(input) {
        Ok(Some(v)) => {
            return Ok(Pattern::Repeat(v));
        },
        Ok(None) => {},
        Err(e) => {
            proof {
                assert(alternative_fails_fatally(pre, 3, e));
            }
            return Err(e);
        },
    }
    match crate::syntax::ok::<RegexError, Star<'a>>(input) {
        Ok(Some(v)) => {
            return Ok(Pattern::Star(v));
        },
        Ok(None) => {},
        Err(e) => {
            proof {
                assert(alternative_fails_fatally(pre, 4, e));
            }
            return Err(e);
        },
    }
    match crate::syntax::ok::<RegexError, Question<'a>>(input) {
        Ok(Some(v)) => {
            return Ok(Pattern::Question(v));
        },
        Ok(None) => {},
        Err(e) => {
            proof {
                assert(alternative_fails_fatally(pre, 5, e));
            }
            return Err(e);
        },
    }
    match crate::syntax::ok::<RegexError, Plus<'a>>(input) {
        Ok(Some(v)) => {
            return Ok(Pattern::Plus(v));
        },
        Ok(None) => {},
        Err(e) => {
            proof {
                assert(alternative_fails_fatally(pre, 6, e));
            }
            return Err(e);
        },
    }
    match crate::syntax::ok::<RegexError, Class<'a>>(input) {
        Ok(Some(v)) => {
            return Ok(Pattern::Class(v));
        },
        Ok(None) => {},
        Err(e) => {
            proof {
                assert(alternative_fails_fatally(pre, 7, e));
            }
            return Err(e);
        },
    }
    Err(RegexError::Other(Kind::Syntax("Pattern", ControlFlow::Recovable, input.to_span())))
}

/// Parses a capture from input that starts with `(`. Once the `(` matched,
/// every failure is fatal.
fn parse_capture<'a>(input: &mut TokenStream<'a>) -> (r: Result<Capture<'a>, RegexError>)
    requires
        old(input).wf(),
        old(input).value@.len() > 0,
        old(input).value@[0] == PAREN_START,
    ensures
        final(input).wf(),
        advances(*old(input), *final(input)),
        r is Ok ==> capture_parsed(*old(input), *final(input), r->Ok_0),
        r is Err ==> regex_flow(r->Err_0) == ControlFlow::Fatal,
    decreases old(input).value@.len(), 1int,
{
    let ghost pre = *input;
    let start = ParenStart(input.split_to(1));
    let ghost mid = *input;
    let body = match parse_patterns(input) {
        Ok(body) => body,
        Err(e) => {
            proof {
                crate::lang::lemma_consumed_concat(pre, mid, *input);
            }
            return Err(e.into_fatal());
        },
    };
    let ghost before_end = *input;
    proof {
        crate::lang::lemma_consumed_concat(pre, mid, before_end);
    }
    let end = match crate::lexer::next::<RegexError>(input, PAREN_END) {
        Ok(t) => ParenEnd(t),
        Err(e) => {
            proof {
                crate::lang::lemma_consumed_concat(pre, before_end, *input);
            }
            return Err(e.into_fatal());
        },
    };
    proof {
        crate::lang::lemma_consumed_concat(pre, before_end, *input);
        assert(end.0.value@ =~= seq![PAREN_END]);
    }
    let d = Delimiter { start, end, body };
    let done: Result<Capture<'a>, RegexError> = Ok(d);
    proof {
        assert(done->Ok_0 == d);
        assert(d.body@ == body@);
        assert(capture_inner(pre, mid, before_end, *input, d));
    }
    done
}

/// Parses pattern elements as long as they match, up to where none does;
/// fails only fatally.
fn parse_patterns<'a>(input: &mut TokenStream<'a>) -> (r: Result<Vec<Pattern<'a>>, RegexError>)
    requires
        old(input).wf(),
    ensures
        final(input).wf(),
        advances(*old(input), *final(input)),
        r is Ok ==> body_parsed(*old(input), *final(input), r->Ok_0@),
        r is Err ==> regex_flow(r->Err_0) == ControlFlow::Fatal,
    decreases old(input).value@.len(), 3int,
{
    let ghost pre = *input;
    let mut elms: Vec<Pattern<'a>> = Vec::new();
    let ghost mut cs: Seq<TokenStream<'a>> = seq![*input];
    proof {
        crate::lang::lemma_advances_refl(pre);
    }
    loop
        invariant
            pre == *old(input),
            input.wf(),
            advances(pre, *input),
            body_chain(pre, *input, elms@, cs),
        decreases input.value@.len(),
    {
        let ghost before = *input;
        let mut attempt = *input;
        let step = parse_pattern(&mut attempt);
        match step {
            Ok(p) => {
                proof {
                    crate::lang::lemma_consumed_concat(pre, before, attempt);
                    lemma_pattern_consumes(before, attempt, p);
                }
                *input = attempt;
                let ghost old_elms = elms@;
                elms.push(p);
                proof {
                    let old_cs = cs;
                    cs = cs.push(*input);
                    assert forall|i: int| 0 <= i <= elms@.len() implies advances(pre, #[trigger] cs[i]) by {
                        if i < old_cs.len() {
                            assert(cs[i] == old_cs[i]);
                        }
                    }
                    assert forall|i: int| 0 <= i < elms@.len() implies pattern_shallow(
                        cs[i],
                        cs[i + 1],
                        #[trigger] elms@[i],
                    ) by {
                        if i < old_elms.len() {
                            assert(elms@[i] == old_elms[i]);
                            assert(cs[i] == old_cs[i] && cs[i + 1] == old_cs[i + 1]);
                        }
                    }
                    assert(body_chain(pre, *input, elms@, cs));
                }
            },
            Err(e) => {
                if e.control_flow() == ControlFlow::Fatal {
                    return Err(e);
                }
                let done: Result<Vec<Pattern<'a>>, RegexError> = Ok(elms);
                proof {
                    assert forall|k: int| 0 <= k < 8 implies !alternative_fails_fatally(before, k, e) by {}
                    assert(first_fail_softly(before, 8));
                    assert(done->Ok_0@ == elms@);
                    assert(body_chain(pre, *input, done->Ok_0@, cs));
                }
                return done;
            },
        }
    }
}

} // verus!
