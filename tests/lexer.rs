use parserc::errors::{ControlFlow, Kind};
use parserc::lang::TokenStream;
use parserc::lexer::{keyword, keyword_word, next, next_if, take_till, take_until, take_while};
use parserc::span::Span;

#[test]
fn next_matches_one_byte() {
    let mut input = TokenStream::from("abc");
    assert_eq!(next::<Kind>(&mut input, b'a'), Ok(TokenStream::from("a")));
    assert_eq!(input, TokenStream::from((1, "bc")));
}

#[test]
fn next_mismatch_is_recoverable_and_consumes_nothing() {
    let mut input = TokenStream::from("abc");
    assert_eq!(
        next::<Kind>(&mut input, b'x'),
        Err(Kind::Next(ControlFlow::Recovable, Span::Range(0, 1)))
    );
    assert_eq!(input, TokenStream::from("abc"));
}

#[test]
fn next_at_end_is_incomplete() {
    let mut input = TokenStream::from((5, ""));
    assert_eq!(
        next::<Kind>(&mut input, b'x'),
        Err(Kind::Next(ControlFlow::Incomplete, Span::Range(5, 5)))
    );
}

#[test]
fn next_if_uses_the_predicate() {
    let mut input = TokenStream::from("7a");
    assert_eq!(
        next_if::<Kind, _>(&mut input, |c: u8| c.is_ascii_digit()),
        Ok(TokenStream::from("7"))
    );
    assert_eq!(
        next_if::<Kind, _>(&mut input, |c: u8| c.is_ascii_digit()),
        Err(Kind::NextIf(ControlFlow::Recovable, Span::Range(1, 2)))
    );
    let mut empty = TokenStream::from("");
    assert_eq!(
        next_if::<Kind, _>(&mut empty, |c: u8| c.is_ascii_digit()),
        Err(Kind::NextIf(ControlFlow::Incomplete, Span::Range(0, 0)))
    );
}

#[test]
fn keyword_is_a_prefix_match() {
    let mut input = TokenStream::from("fn main");
    assert_eq!(keyword::<Kind>(&mut input, b"fn"), Ok(TokenStream::from("fn")));
    assert_eq!(input, TokenStream::from((2, " main")));

    let mut input = TokenStream::from("f");
    assert_eq!(
        keyword::<Kind>(&mut input, b"fn"),
        Err(Kind::Keyword(ControlFlow::Recovable, Span::Range(0, 1)))
    );
    assert_eq!(input, TokenStream::from("f"));
}

#[test]
fn take_until_stops_before_the_needle() {
    let mut input = TokenStream::from("hello world, world");
    assert_eq!(take_until::<Kind>(&mut input, b"wor"), Ok(TokenStream::from("hello ")));
    assert_eq!(input, TokenStream::from((6, "world, world")));

    let mut input = TokenStream::from("hello");
    assert_eq!(
        take_until::<Kind>(&mut input, b"zz"),
        Err(Kind::TakeUntil(ControlFlow::Incomplete, Span::Range(0, 5)))
    );
    assert_eq!(input, TokenStream::from("hello"));
}

#[test]
fn find_reports_the_first_occurrence() {
    let input = TokenStream::from("abcabc");
    assert_eq!(input.find(b"ca"), Some(2));
    assert_eq!(input.find(b"x"), None);
    assert_eq!(input.find(b""), Some(0));
}

#[test]
fn take_while_and_take_till() {
    let mut input = TokenStream::from("123abc");
    assert_eq!(
        take_while::<Kind, _>(&mut input, |c: u8| c.is_ascii_digit()),
        Ok(TokenStream::from("123"))
    );
    assert_eq!(
        take_till::<Kind, _>(&mut input, |c: u8| c == b'c'),
        Ok(TokenStream::from((3, "ab")))
    );
    assert_eq!(input, TokenStream::from((5, "c")));
    assert_eq!(
        take_while::<Kind, _>(&mut input, |c: u8| c.is_ascii_digit()),
        Ok(TokenStream::from((5, "")))
    );
}

#[test]
fn split_to_and_split_off() {
    let mut input = TokenStream::from((10, "abcdef"));
    let head = input.split_to(2);
    assert_eq!(head, TokenStream::from((10, "ab")));
    assert_eq!(input, TokenStream::from((12, "cdef")));
    let tail = input.split_off(1);
    assert_eq!(input, TokenStream::from((12, "c")));
    assert_eq!(tail, TokenStream::from((13, "def")));
    assert_eq!(tail.to_span(), Span::Range(13, 16));
    assert_eq!(tail.start(), 13);
    assert_eq!(tail.end(), 16);
    assert_eq!(tail.starts_with(b"de"), Some(2));
    assert_eq!(tail.starts_with(b"dx"), None);
}

#[test]
fn keyword_word_needs_a_boundary() {
    let mut input = TokenStream::from("fnx");
    assert_eq!(
        keyword_word::<Kind>(&mut input, b"fn"),
        Err(Kind::Keyword(ControlFlow::Recovable, Span::Range(0, 3)))
    );
    assert_eq!(input, TokenStream::from("fnx"));

    let mut input = TokenStream::from("fn x");
    assert_eq!(keyword_word::<Kind>(&mut input, b"fn"), Ok(TokenStream::from("fn")));
    let mut input = TokenStream::from("fn");
    assert_eq!(keyword_word::<Kind>(&mut input, b"fn"), Ok(TokenStream::from("fn")));
}
