use parserc::errors::ControlFlow;
use parserc::lang::TokenStream;
use parserc::pattex::errors::{CompileError, RegexError};
use parserc::pattex::pattern::digits::Digits;
use parserc::pattex::pattern::repeat::Repeat;
use parserc::span::Span;

#[test]
fn repeat_test_repeat() {
    assert_eq!(
        TokenStream::from("{10}100").parse(),
        Ok(Repeat::Repeat {
            n: Digits {
                value: 10,
                input: TokenStream::from((1, "10"))
            },
            input: TokenStream::from("{10}")
        })
    );

    assert_eq!(
        TokenStream::from("{10,}100").parse(),
        Ok(Repeat::From {
            n: Digits {
                value: 10,
                input: TokenStream::from((1, "10"))
            },
            input: TokenStream::from("{10,}")
        })
    );

    assert_eq!(
        TokenStream::from("{10,40}100").parse(),
        Ok(Repeat::Range {
            n: Digits {
                value: 10,
                input: TokenStream::from((1, "10"))
            },
            m: Digits {
                value: 40,
                input: TokenStream::from((4, "40"))
            },
            input: TokenStream::from("{10,40}")
        })
    );

    assert_eq!(
        TokenStream::from("{ 10} ").parse::<Repeat, RegexError>(),
        Err(RegexError::Compile(
            CompileError::Repeat,
            ControlFlow::Fatal,
            Span::Range(1, 1)
        ))
    );

    assert_eq!(
        TokenStream::from("{10 } ").parse::<Repeat, RegexError>(),
        Err(RegexError::Compile(
            CompileError::Repeat,
            ControlFlow::Fatal,
            Span::Range(3, 4)
        ))
    );

    assert_eq!(
        TokenStream::from("{10, } ").parse::<Repeat, RegexError>(),
        Err(RegexError::Compile(
            CompileError::Repeat,
            ControlFlow::Fatal,
            Span::Range(4, 5)
        ))
    );

    assert_eq!(
        TokenStream::from("{10, 20} ").parse::<Repeat, RegexError>(),
        Err(RegexError::Compile(
            CompileError::Repeat,
            ControlFlow::Fatal,
            Span::Range(4, 5)
        ))
    );

    assert_eq!(
        TokenStream::from("{10 ,20} ").parse::<Repeat, RegexError>(),
        Err(RegexError::Compile(
            CompileError::Repeat,
            ControlFlow::Fatal,
            Span::Range(3, 4)
        ))
    );

    assert_eq!(
        TokenStream::from("{10,5} ").parse::<Repeat, RegexError>(),
        Err(RegexError::Compile(
            CompileError::Repeat,
            ControlFlow::Fatal,
            Span::Range(0, 6)
        ))
    );
}

#[test]
fn from_quantifier_has_lower_bound_ten() {
    match TokenStream::from("{10,}").parse::<Repeat, RegexError>() {
        Ok(Repeat::From { n, input }) => {
            assert_eq!(n.value, 10);
            assert_eq!(input, TokenStream::from("{10,}"));
        }
        other => panic!("unexpected {:?}", other),
    }
}

#[test]
fn digits_value_overflow_is_fatal() {
    assert_eq!(
        TokenStream::from("99999999999999999999").parse::<Digits, RegexError>(),
        Err(RegexError::Compile(
            CompileError::Digits,
            ControlFlow::Fatal,
            Span::Range(0, 20)
        ))
    );
    assert_eq!(
        TokenStream::from("18446744073709551615x").parse(),
        Ok(Digits {
            value: u64::MAX,
            input: TokenStream::from("18446744073709551615")
        })
    );
}
