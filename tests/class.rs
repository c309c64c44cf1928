use parserc::errors::ControlFlow;
use parserc::lang::TokenStream;
use parserc::pattex::errors::{CompileError, RegexError};
use parserc::pattex::pattern::class::{CharClass, Chars};
use parserc::pattex::pattern::escape::Escape;
use parserc::pattex::pattern::token::BackSlash;
use parserc::span::Span;
use parserc::syntax::Char;

#[test]
fn test_chars() {
    assert_eq!(
        TokenStream::from("1234").parse(),
        Ok(Chars::Sequnce(TokenStream::from("1234")))
    );

    assert_eq!(
        TokenStream::from("1234-9").parse(),
        Ok(Chars::Sequnce(TokenStream::from("123")))
    );

    assert_eq!(
        TokenStream::from("a-z").parse(),
        Ok(Chars::Range {
            from: 'a',
            to: 'z',
            input: TokenStream::from("a-z")
        })
    );

    assert_eq!(
        TokenStream::from("0-9").parse(),
        Ok(Chars::Range {
            from: '0',
            to: '9',
            input: TokenStream::from("0-9")
        })
    );

    // The escape grammar has no back references: `\1` is no escape, and a
    // backslash cannot start a character sequence.
    assert_eq!(
        TokenStream::from(r"\123a-z").parse::<Chars, RegexError>(),
        Err(RegexError::Compile(
            CompileError::CharSequence,
            ControlFlow::Recovable,
            Span::Range(0, 0)
        ))
    );

    assert_eq!(
        TokenStream::from("z-a").parse::<Chars, RegexError>(),
        Err(RegexError::Compile(
            CompileError::CharRange,
            ControlFlow::Fatal,
            Span::Range(0, 3)
        ))
    );

    assert_eq!(
        TokenStream::from("z-").parse::<Chars, RegexError>(),
        Err(RegexError::Compile(
            CompileError::CharRange,
            ControlFlow::Fatal,
            Span::Range(0, 2)
        ))
    );
}

#[test]
fn class_test_char_class() {
    assert_eq!(
        TokenStream::from(r"[^\f0-9]").parse(),
        Ok(CharClass {
            delimiter_start: TokenStream::from("["),
            negated: Some(TokenStream::from((1, "^"))),
            chars: vec![
                Chars::Escape(Escape::FF(
                    BackSlash(TokenStream::from((2, r"\"))),
                    Char(TokenStream::from((3, "f")))
                )),
                Chars::Range {
                    from: '0',
                    to: '9',
                    input: TokenStream::from((4, "0-9"))
                }
            ],
            delimiter_end: TokenStream::from((7, "]"))
        })
    );

    assert_eq!(
        TokenStream::from(r"[\f\f\n]").parse(),
        Ok(CharClass {
            delimiter_start: TokenStream::from("["),
            negated: None,
            chars: vec![
                Chars::Escape(Escape::FF(
                    BackSlash(TokenStream::from((1, r"\"))),
                    Char(TokenStream::from((2, "f")))
                )),
                Chars::Escape(Escape::FF(
                    BackSlash(TokenStream::from((3, r"\"))),
                    Char(TokenStream::from((4, "f")))
                )),
                Chars::Escape(Escape::LF(
                    BackSlash(TokenStream::from((5, r"\"))),
                    Char(TokenStream::from((6, "n")))
                )),
            ],
            delimiter_end: TokenStream::from((7, "]"))
        })
    );
}
