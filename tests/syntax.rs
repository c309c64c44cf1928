use parserc::errors::{ControlFlow, Kind, ParseError};
use parserc::lang::TokenStream;
use parserc::parser::{into_parser, FromFn, Parser};
use parserc::pattex::errors::{CompileError, PatternKind, RegexError};
use parserc::pattex::pattern::expr::{Pattern, PatternChars};
use parserc::pattex::pattern::token::{ParenEnd, ParenStart, Plus, Question, Star};
use parserc::span::Span;
use parserc::syntax::{Delimiter, Limits, LimitsFrom, LimitsTo, Or, Punctuated, Syntax};

#[test]
fn option_leaves_cursor_on_mismatch() {
    let mut input = TokenStream::from("x*");
    assert_eq!(Option::<Star>::parse(&mut input), Ok(None));
    assert_eq!(input, TokenStream::from("x*"));

    let mut input = TokenStream::from("*x");
    assert_eq!(
        Option::<Star>::parse(&mut input),
        Ok(Some(Star(TokenStream::from("*"))))
    );
    assert_eq!(input, TokenStream::from((1, "x")));
}

#[test]
fn vec_stops_before_first_mismatch() {
    let mut input = TokenStream::from("**+");
    let stars: Result<Vec<Star>, RegexError> = Vec::parse(&mut input);
    assert_eq!(
        stars,
        Ok(vec![Star(TokenStream::from("*")), Star(TokenStream::from((1, "*")))])
    );
    assert_eq!(input, TokenStream::from((2, "+")));

    let mut input = TokenStream::from("abc");
    let none: Result<Vec<Star>, RegexError> = Vec::parse(&mut input);
    assert_eq!(none, Ok(vec![]));
    assert_eq!(input, TokenStream::from("abc"));
}

#[test]
fn vec_span_covers_first_to_last() {
    let mut input = TokenStream::from("***");
    let stars: Vec<Star> = Vec::<Star>::parse(&mut input).unwrap();
    assert_eq!(Syntax::<RegexError>::to_span(&stars), Span::Range(0, 3));
}

#[test]
fn or_falls_back_to_second() {
    let mut input = TokenStream::from("+");
    assert_eq!(
        Or::<Star, Plus>::parse(&mut input),
        Ok(Or::Second(Plus(TokenStream::from("+"))))
    );
    let mut input = TokenStream::from("x");
    assert_eq!(
        Or::<Star, Plus>::parse(&mut input),
        Err(RegexError::Other(Kind::Next(ControlFlow::Recovable, Span::Range(0, 1))))
    );
}

#[test]
fn punctuated_pairs_and_tail() {
    let mut input = TokenStream::from("*+*+*x");
    let p: Punctuated<Star, Plus> = Punctuated::parse(&mut input).unwrap();
    assert_eq!(p.pairs.len(), 2);
    assert_eq!(p.tail, Some(Box::new(Star(TokenStream::from((4, "*"))))));
    assert_eq!(input, TokenStream::from((5, "x")));

    let mut input = TokenStream::from("*+");
    let p: Punctuated<Star, Plus> = Punctuated::parse(&mut input).unwrap();
    assert_eq!(p.pairs.len(), 1);
    assert_eq!(p.tail, None);

    let mut input = TokenStream::from("");
    let p: Punctuated<Star, Plus> = Punctuated::parse(&mut input).unwrap();
    assert_eq!(p.pairs.len(), 0);
    assert_eq!(p.tail, None);
}

#[test]
fn delimiter_without_closer_is_fatal() {
    let mut input = TokenStream::from("(abc");
    let r = Delimiter::<ParenStart, ParenEnd, PatternChars>::parse(&mut input);
    assert_eq!(
        r,
        Err(RegexError::Other(Kind::Next(ControlFlow::Fatal, Span::Range(4, 4))))
    );

    let mut input = TokenStream::from("abc)");
    let r = Delimiter::<ParenStart, ParenEnd, PatternChars>::parse(&mut input);
    assert_eq!(
        r,
        Err(RegexError::Other(Kind::Next(ControlFlow::Recovable, Span::Range(0, 1))))
    );
}

#[test]
fn limits_check_the_consumed_length() {
    let mut input = TokenStream::from("ab+");
    assert_eq!(
        LimitsTo::<PatternChars, 3>::parse(&mut input),
        Ok(LimitsTo(PatternChars(TokenStream::from("ab"))))
    );
    let mut input = TokenStream::from("abcd");
    assert_eq!(
        LimitsTo::<PatternChars, 3>::parse(&mut input),
        Err(RegexError::Other(Kind::LimitsTo(ControlFlow::Recovable, Span::Range(0, 4))))
    );
    let mut input = TokenStream::from("abc");
    assert!(Limits::<PatternChars, 2, 4>::parse(&mut input).is_ok());
    let mut input = TokenStream::from("abcd");
    assert_eq!(
        Limits::<PatternChars, 2, 4>::parse(&mut input),
        Err(RegexError::Other(Kind::Limits(ControlFlow::Recovable, Span::Range(0, 4))))
    );
    let mut input = TokenStream::from("a");
    assert_eq!(
        LimitsFrom::<PatternChars, 2>::parse(&mut input),
        Err(RegexError::Other(Kind::LimitsFrom(ControlFlow::Recovable, Span::Range(0, 1))))
    );
}

#[test]
fn parser_adapters() {
    let mut input = TokenStream::from("x");
    let r: Result<Option<Star>, RegexError> = into_parser::<Star>().ok().parse(&mut input);
    assert_eq!(r, Ok(None));

    let mut input = TokenStream::from("x");
    let r: Result<Star, RegexError> = into_parser::<Star>().fatal().parse(&mut input);
    assert_eq!(
        r,
        Err(RegexError::Other(Kind::Next(ControlFlow::Fatal, Span::Range(0, 1))))
    );

    let mut input = TokenStream::from("+*");
    let r: Result<usize, RegexError> = into_parser::<Star>()
        .map(|s: Star| s.0.start())
        .or(into_parser::<Plus>().map(|p: Plus| p.0.start() + 100))
        .parse(&mut input);
    assert_eq!(r, Ok(100));
    let r: Result<Box<Star>, RegexError> = into_parser::<Star>().boxed().parse(&mut input);
    assert_eq!(r, Ok(Box::new(Star(TokenStream::from((1, "*"))))));
}

#[test]
fn consumed_spans_tile_a_prefix() {
    let mut input = TokenStream::from("ab(cd)*+rest)tail");
    let nodes: Vec<Pattern> = Vec::<Pattern>::parse(&mut input).unwrap();
    let mut at = 0;
    for node in nodes.iter() {
        match Syntax::<RegexError>::to_span(node) {
            Span::Range(lo, hi) => {
                assert_eq!(lo, at);
                at = hi;
            }
            other => panic!("unexpected span {:?}", other),
        }
    }
    assert_eq!(at, input.start());
    assert_eq!(input, TokenStream::from((12, ")tail")));
}

#[test]
fn error_model() {
    let e = RegexError::Other(Kind::Next(ControlFlow::Recovable, Span::Range(1, 2)));
    assert_eq!(e.into_fatal(), RegexError::Other(Kind::Next(ControlFlow::Fatal, Span::Range(1, 2))));
    assert_eq!(e.span(), Span::Range(1, 2));
    assert_eq!(e.control_flow(), ControlFlow::Recovable);
    assert_eq!(
        PatternKind::Repeat.map(e),
        RegexError::Pattern(PatternKind::Repeat, ControlFlow::Recovable, Span::Range(1, 2))
    );
    assert_eq!(
        PatternKind::Repeat.map_fatal(e),
        RegexError::Pattern(PatternKind::Repeat, ControlFlow::Fatal, Span::Range(1, 2))
    );
    assert_eq!(
        CompileError::CharClass.map_fatal(e),
        RegexError::Compile(CompileError::CharClass, ControlFlow::Fatal, Span::Range(1, 2))
    );
    let k = Kind::Syntax("Name", ControlFlow::Incomplete, Span::RangeTo(3));
    assert_eq!(k.into_fatal(), Kind::Syntax("Name", ControlFlow::Fatal, Span::RangeTo(3)));
    assert_eq!(
        RegexError::Pattern(PatternKind::S, ControlFlow::Recovable, Span::Empty).into_fatal(),
        RegexError::Pattern(PatternKind::S, ControlFlow::Fatal, Span::Empty)
    );
}

#[test]
fn tuple_parses_in_order() {
    let mut input = TokenStream::from("*+?x");
    let t: (Star, Plus, Question) = Syntax::<RegexError>::parse(&mut input).unwrap();
    assert_eq!(t.2, Question(TokenStream::from((2, "?"))));
    assert_eq!(Syntax::<RegexError>::to_span(&t), Span::Range(0, 3));
    assert_eq!(input, TokenStream::from((3, "x")));

    let mut input = TokenStream::from("*?");
    let r: Result<(Star, Plus, Question), RegexError> = Syntax::parse(&mut input);
    assert_eq!(
        r,
        Err(RegexError::Other(Kind::Next(ControlFlow::Recovable, Span::Range(1, 2))))
    );
}

fn take_two<'a>(mut c: TokenStream<'a>) -> Result<(usize, TokenStream<'a>), Kind> {
    let head = c.split_to(2);
    Ok((head.len(), c))
}

#[test]
fn function_as_parser() {
    let mut input = TokenStream::from("abcd");
    let r: Result<usize, Kind> = FromFn(take_two).parse(&mut input);
    assert_eq!(r, Ok(2));
    assert_eq!(input, TokenStream::from((2, "cd")));

    let mut input = TokenStream::from("abcd");
    let r: Result<usize, Kind> = FromFn(|c: TokenStream| Err(Kind::Next(ControlFlow::Recovable, c.to_span())))
        .parse(&mut input);
    assert_eq!(r, Err(Kind::Next(ControlFlow::Recovable, Span::Range(0, 4))));
    assert_eq!(input, TokenStream::from("abcd"));
}
