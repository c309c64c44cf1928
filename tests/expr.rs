use parserc::errors::{ControlFlow, ParseError};
use parserc::lang::TokenStream;
use parserc::pattex::errors::RegexError;
use parserc::pattex::pattern::digits::Digits;
use parserc::pattex::pattern::escape::Escape;
use parserc::pattex::pattern::expr::{Class, ClassChars, Pattern, PatternChars};
use parserc::pattex::pattern::repeat::Repeat;
use parserc::pattex::pattern::token::{
    BackSlash, BracketEnd, BracketStart, Caret, ParenEnd, ParenStart, Plus, Question, Star,
};
use parserc::syntax::{Char, Delimiter};

#[test]
fn capture() {
    assert_eq!(
        TokenStream::from("(abc)").parse(),
        Ok(Pattern::Capture(Delimiter {
            start: ParenStart(TokenStream::from("(")),
            end: ParenEnd(TokenStream::from((4, ")"))),
            body: vec![Pattern::Chars(PatternChars(TokenStream::from((1, "abc"))))]
        }))
    );
}

#[test]
fn class() {
    assert_eq!(
        TokenStream::from(r"[^\f\thello0-9]*").parse::<Vec<Pattern>, RegexError>(),
        Ok(vec![
            Pattern::Class(Class(Delimiter {
                start: BracketStart(TokenStream::from("[")),
                end: BracketEnd(TokenStream::from((14, "]"))),
                body: (
                    Some(Caret(TokenStream::from((1, "^")))),
                    vec![
                        ClassChars::Escape(Escape::FF(
                            BackSlash(TokenStream::from((2, r"\"))),
                            Char(TokenStream::from((3, "f")))
                        )),
                        ClassChars::Escape(Escape::TF(
                            BackSlash(TokenStream::from((4, r"\"))),
                            Char(TokenStream::from((5, "t")))
                        )),
                        ClassChars::Sequnce(TokenStream::from((6, "hello"))),
                        ClassChars::Range {
                            from: '0',
                            to: '9',
                            input: TokenStream::from((11, "0-9"))
                        }
                    ]
                )
            })),
            Pattern::Star(Star(TokenStream::from((15, "*"))))
        ])
    )
}

#[test]
fn repeat() {
    assert_eq!(
        TokenStream::from("abc{2}").parse::<Vec<Pattern>, RegexError>(),
        Ok(vec![
            Pattern::Chars(PatternChars(TokenStream::from("abc"))),
            Pattern::Repeat(Repeat::Repeat {
                n: Digits {
                    value: 2,
                    input: TokenStream::from((4, "2"))
                },
                input: TokenStream::from((3, "{2}"))
            })
        ])
    );

    assert_eq!(
        TokenStream::from("abc*").parse::<Vec<Pattern>, RegexError>(),
        Ok(vec![
            Pattern::Chars(PatternChars(TokenStream::from("abc"))),
            Pattern::Star(Star(TokenStream::from((3, "*"))))
        ])
    );

    assert_eq!(
        TokenStream::from("abc?").parse::<Vec<Pattern>, RegexError>(),
        Ok(vec![
            Pattern::Chars(PatternChars(TokenStream::from("abc"))),
            Pattern::Question(Question(TokenStream::from((3, "?"))))
        ])
    );

    assert_eq!(
        TokenStream::from("abc+").parse::<Vec<Pattern>, RegexError>(),
        Ok(vec![
            Pattern::Chars(PatternChars(TokenStream::from("abc"))),
            Pattern::Plus(Plus(TokenStream::from((3, "+"))))
        ])
    );
}

#[test]
fn capture_without_closer_is_fatal() {
    let r = TokenStream::from("(abc").parse::<Pattern, RegexError>();
    assert_eq!(r.err().map(|e| e.control_flow()), Some(ControlFlow::Fatal));
    let r = TokenStream::from("(abc")
        .parse::<Delimiter<ParenStart, ParenEnd, PatternChars>, RegexError>();
    assert_eq!(r.err().map(|e| e.control_flow()), Some(ControlFlow::Fatal));
}
