use parserc::errors::ControlFlow;
use parserc::lang::TokenStream;
use parserc::pattex::errors::{PatternKind, RegexError};
use parserc::pattex::pattern::{Char, CharClass, Digits, Escape, Repeat};
use parserc::span::Span;

#[test]
fn test_digits() {
    assert_eq!(
        TokenStream::from("1234hello").parse(),
        Ok(Digits(TokenStream::from("1234")))
    );

    assert_eq!(
        TokenStream::from("hello123").parse::<Digits, RegexError>(),
        Err(RegexError::Pattern(
            PatternKind::Digits,
            ControlFlow::Recovable,
            Span::Range(0, 0)
        ))
    );
}

#[test]
fn pattern_test_repeat() {
    assert_eq!(
        TokenStream::from("?").parse(),
        Ok(Repeat::Question(TokenStream::from("?")))
    );

    assert_eq!(
        TokenStream::from("+").parse(),
        Ok(Repeat::Plus(TokenStream::from("+")))
    );

    assert_eq!(
        TokenStream::from("*").parse(),
        Ok(Repeat::Star(TokenStream::from("*")))
    );

    assert_eq!(
        TokenStream::from("{ 10 }").parse(),
        Ok(Repeat::N(Digits(TokenStream::from((2, "10")))))
    );

    assert_eq!(
        TokenStream::from("{10 ,}").parse(),
        Ok(Repeat::RangeFrom(Digits(TokenStream::from((1, "10")))))
    );

    assert_eq!(
        TokenStream::from("{10, }").parse(),
        Ok(Repeat::RangeFrom(Digits(TokenStream::from((1, "10")))))
    );

    assert_eq!(
        TokenStream::from("{10, 30}").parse(),
        Ok(Repeat::Range {
            n: Digits(TokenStream::from((1, "10"))),
            m: Digits(TokenStream::from((5, "30")))
        })
    );

    assert_eq!(
        TokenStream::from("{30, 10}").parse::<Repeat, RegexError>(),
        Err(RegexError::Pattern(
            PatternKind::RepeatRange,
            ControlFlow::Fatal,
            Span::Range(1, 7)
        ))
    );
}

#[test]
fn test_escape() {
    assert_eq!(
        TokenStream::from(r"\u{00A9}").parse(),
        Ok(Escape::Unicode {
            prefix: TokenStream::from(r"\u"),
            delimiter_start: TokenStream::from((2, "{")),
            num: TokenStream::from((3, "00A9")),
            delimiter_end: TokenStream::from((7, "}")),
        })
    );

    assert_eq!(
        TokenStream::from(r"\4").parse(),
        Ok(Escape::BackReference(TokenStream::from(r"\4")))
    );

    assert_eq!(
        TokenStream::from(r"\x04a").parse(),
        Ok(Escape::X {
            prefix: TokenStream::from(r"\x"),
            num: TokenStream::from((2, "04"))
        })
    );

    assert_eq!(
        TokenStream::from(r"\x4h").parse::<Escape, RegexError>(),
        Err(RegexError::Pattern(
            PatternKind::HexEscape,
            ControlFlow::Fatal,
            Span::Range(2, 3)
        ))
    );

    assert_eq!(
        TokenStream::from(r"\W+").parse(),
        Ok(Escape::NonWord(TokenStream::from(r"\W")))
    );

    assert_eq!(
        TokenStream::from(r"\w*").parse(),
        Ok(Escape::Word(TokenStream::from(r"\w")))
    );

    assert_eq!(
        TokenStream::from(r"\v*").parse(),
        Ok(Escape::V(TokenStream::from(r"\v")))
    );

    assert_eq!(
        TokenStream::from(r"\t*").parse(),
        Ok(Escape::T(TokenStream::from(r"\t")))
    );

    assert_eq!(
        TokenStream::from(r"\S").parse(),
        Ok(Escape::NonS(TokenStream::from(r"\S")))
    );

    assert_eq!(
        TokenStream::from(r"\s").parse(),
        Ok(Escape::S(TokenStream::from(r"\s")))
    );

    assert_eq!(
        TokenStream::from(r"\n").parse(),
        Ok(Escape::LF(TokenStream::from(r"\n")))
    );

    assert_eq!(
        TokenStream::from(r"\r").parse(),
        Ok(Escape::CR(TokenStream::from(r"\r")))
    );

    assert_eq!(
        TokenStream::from(r"\f").parse(),
        Ok(Escape::PF(TokenStream::from(r"\f")))
    );

    assert_eq!(
        TokenStream::from(r"\D").parse(),
        Ok(Escape::NonDigit(TokenStream::from(r"\D")))
    );

    assert_eq!(
        TokenStream::from(r"\d").parse(),
        Ok(Escape::Digit(TokenStream::from(r"\d")))
    );

    assert_eq!(
        TokenStream::from(r"\B").parse(),
        Ok(Escape::NonBoundary(TokenStream::from(r"\B")))
    );

    assert_eq!(
        TokenStream::from(r"\b").parse(),
        Ok(Escape::Boundary(TokenStream::from(r"\b")))
    );

    assert_eq!(
        TokenStream::from(r"\..").parse(),
        Ok(Escape::Dot(TokenStream::from(r"\.")))
    );
}

#[test]
fn pattern_test_char_class() {
    assert_eq!(
        TokenStream::from("[^A-Z0-9]").parse(),
        Ok(CharClass {
            delimiter_start: TokenStream::from("["),
            negated: Some(TokenStream::from((1, "^"))),
            chars: vec![
                Char::Range {
                    start: 'A',
                    end: 'Z',
                    input: TokenStream::from((2, "A-Z"))
                },
                Char::Range {
                    start: '0',
                    end: '9',
                    input: TokenStream::from((5, "0-9"))
                }
            ],
            delimiter_end: TokenStream::from((8, "]"))
        })
    );

    assert_eq!(
        TokenStream::from("[a - b]").parse::<CharClass, RegexError>(),
        Err(RegexError::Pattern(
            PatternKind::CharRange,
            ControlFlow::Fatal,
            Span::Range(2, 5)
        ))
    );

    assert_eq!(
        TokenStream::from("[a -b]").parse(),
        Ok(CharClass {
            delimiter_start: TokenStream::from("["),
            negated: None,
            chars: vec![
                Char::C {
                    value: 'a',
                    input: TokenStream::from((1, "a"))
                },
                Char::Range {
                    start: ' ',
                    end: 'b',
                    input: TokenStream::from((2, " -b"))
                }
            ],
            delimiter_end: TokenStream::from((5, "]"))
        })
    );

    assert_eq!(
        TokenStream::from("[a- b]").parse::<CharClass, RegexError>(),
        Err(RegexError::Pattern(
            PatternKind::CharRange,
            ControlFlow::Fatal,
            Span::Range(1, 4)
        ))
    );

    assert_eq!(
        TokenStream::from("[z-c]").parse::<CharClass, RegexError>(),
        Err(RegexError::Pattern(
            PatternKind::CharRange,
            ControlFlow::Fatal,
            Span::Range(1, 4)
        ))
    );
}
