use parserc::errors::{ControlFlow, Kind};
use parserc::lang::TokenStream;
use parserc::pattex::errors::{CompileError, PatternKind, RegexError};
use parserc::pattex::pattern::class::{CharClass as TokenCharClass, Chars};
use parserc::pattex::pattern::digits::{FixedDigits, FixedHexDigits};
use parserc::pattex::pattern::escape::Escape as TokenEscape;
use parserc::pattex::pattern::expr::{Pattern, PatternChars};
use parserc::pattex::pattern::repeat::Repeat as TokenRepeat;
use parserc::pattex::pattern::{Char, CharClass, Digits, Escape, Repeat, S};
use parserc::span::Span;

fn pattern_err(kind: PatternKind, flow: ControlFlow, lo: usize, hi: usize) -> RegexError {
    RegexError::Pattern(kind, flow, Span::Range(lo, hi))
}

fn compile_err(kind: CompileError, flow: ControlFlow, lo: usize, hi: usize) -> RegexError {
    RegexError::Compile(kind, flow, Span::Range(lo, hi))
}

#[test]
fn escape_errors() {
    assert_eq!(
        TokenStream::from(r"\u00A9").parse::<Escape, RegexError>(),
        Err(pattern_err(PatternKind::UnicodeEscape, ControlFlow::Recovable, 2, 3))
    );
    assert_eq!(
        TokenStream::from(r"\u{}").parse::<Escape, RegexError>(),
        Err(pattern_err(PatternKind::UnicodeEscape, ControlFlow::Fatal, 0, 3))
    );
    assert_eq!(
        TokenStream::from(r"\u{41").parse::<Escape, RegexError>(),
        Err(pattern_err(PatternKind::UnicodeEscape, ControlFlow::Incomplete, 5, 5))
    );
    assert_eq!(
        TokenStream::from(r"\q").parse::<Escape, RegexError>(),
        Err(pattern_err(PatternKind::Escape, ControlFlow::Recovable, 0, 1))
    );
    assert_eq!(
        TokenStream::from("abc").parse::<Escape, RegexError>(),
        Err(pattern_err(PatternKind::Escape, ControlFlow::Recovable, 0, 0))
    );
}

#[test]
fn hex_escape_consumes_its_digits() {
    let mut input = TokenStream::from(r"\x41z");
    let e: Result<Escape, RegexError> = input.parse();
    assert!(e.is_ok());
    assert_eq!(input, TokenStream::from((4, "z")));
}

#[test]
fn class_char_errors() {
    assert_eq!(
        TokenStream::from("]").parse::<Char, RegexError>(),
        Err(pattern_err(PatternKind::Char, ControlFlow::Recovable, 0, 1))
    );
    assert_eq!(
        TokenStream::from("-a").parse::<Char, RegexError>(),
        Err(pattern_err(PatternKind::Char, ControlFlow::Fatal, 0, 1))
    );
    assert_eq!(
        TokenStream::from("a-").parse::<Char, RegexError>(),
        Err(pattern_err(PatternKind::CharRange, ControlFlow::Fatal, 0, 2))
    );
    assert_eq!(
        TokenStream::from("").parse::<Char, RegexError>(),
        Err(pattern_err(PatternKind::Char, ControlFlow::Recovable, 0, 0))
    );
    assert_eq!(
        TokenStream::from("[a").parse::<CharClass, RegexError>(),
        Err(pattern_err(PatternKind::CharClass, ControlFlow::Fatal, 2, 2))
    );
    assert_eq!(
        TokenStream::from("x").parse::<CharClass, RegexError>(),
        Err(pattern_err(PatternKind::CharClass, ControlFlow::Recovable, 0, 1))
    );
}

#[test]
fn repeat_errors() {
    assert_eq!(
        TokenStream::from("x").parse::<Repeat, RegexError>(),
        Err(pattern_err(PatternKind::Repeat, ControlFlow::Recovable, 0, 0))
    );
    assert_eq!(
        TokenStream::from("{x}").parse::<Repeat, RegexError>(),
        Err(pattern_err(PatternKind::Digits, ControlFlow::Fatal, 1, 1))
    );
    assert_eq!(
        TokenStream::from("{1").parse::<Repeat, RegexError>(),
        Err(pattern_err(PatternKind::Repeat, ControlFlow::Incomplete, 2, 2))
    );
    assert_eq!(
        TokenStream::from("x").parse::<TokenRepeat, RegexError>(),
        Err(compile_err(CompileError::Repeat, ControlFlow::Recovable, 0, 1))
    );
    assert_eq!(
        TokenStream::from("").parse::<TokenRepeat, RegexError>(),
        Err(compile_err(CompileError::Repeat, ControlFlow::Incomplete, 0, 0))
    );
    assert_eq!(
        TokenStream::from("{99999999999999999999}").parse::<TokenRepeat, RegexError>(),
        Err(compile_err(CompileError::Repeat, ControlFlow::Fatal, 1, 21))
    );
}

#[test]
fn digits_value_saturates() {
    assert_eq!(Digits(TokenStream::from("123")).as_usize(), 123);
    assert_eq!(
        Digits(TokenStream::from("99999999999999999999999")).as_usize(),
        usize::MAX
    );
}

#[test]
fn whitespace_run() {
    assert_eq!(
        TokenStream::from(" \t x").parse(),
        Ok(S(TokenStream::from(" \t ")))
    );
    assert_eq!(TokenStream::from("x").parse(), Ok(S(TokenStream::from(""))));
}

#[test]
fn token_grammar_errors() {
    assert_eq!(
        TokenStream::from("]").parse::<Chars, RegexError>(),
        Err(compile_err(CompileError::CharSequence, ControlFlow::Recovable, 0, 0))
    );
    assert_eq!(
        TokenStream::from("z-a").parse::<Chars, RegexError>(),
        Err(compile_err(CompileError::CharRange, ControlFlow::Fatal, 0, 3))
    );
    assert_eq!(
        TokenStream::from("z-").parse::<Chars, RegexError>(),
        Err(compile_err(CompileError::CharRange, ControlFlow::Fatal, 0, 2))
    );
    assert_eq!(
        TokenStream::from("[]").parse::<TokenCharClass, RegexError>(),
        Err(compile_err(CompileError::CharClass, ControlFlow::Fatal, 0, 0))
    );
    assert_eq!(
        TokenStream::from("[a").parse::<TokenCharClass, RegexError>(),
        Err(compile_err(CompileError::CharClass, ControlFlow::Fatal, 2, 2))
    );
    assert_eq!(
        TokenStream::from("x").parse::<TokenCharClass, RegexError>(),
        Err(compile_err(CompileError::CharClass, ControlFlow::Recovable, 0, 1))
    );
    assert_eq!(
        TokenStream::from("*").parse::<PatternChars, RegexError>(),
        Err(RegexError::Other(Kind::Token("PatternChars", ControlFlow::Recovable, Span::Range(0, 0))))
    );
    assert_eq!(
        TokenStream::from(r"\q").parse::<TokenEscape, RegexError>(),
        Err(RegexError::Other(Kind::Syntax("Escape", ControlFlow::Recovable, Span::Range(0, 2))))
    );
    assert_eq!(
        TokenStream::from(")").parse::<Pattern, RegexError>(),
        Err(RegexError::Other(Kind::Syntax("Pattern", ControlFlow::Recovable, Span::Range(0, 1))))
    );
}

#[test]
fn fixed_digits() {
    assert_eq!(
        TokenStream::from("123").parse(),
        Ok(FixedDigits::<2>(TokenStream::from("12")))
    );
    assert_eq!(
        TokenStream::from("1a").parse::<FixedDigits<2>, RegexError>(),
        Err(compile_err(CompileError::Digits, ControlFlow::Recovable, 0, 1))
    );
    assert_eq!(
        TokenStream::from("00A9x").parse(),
        Ok(FixedHexDigits::<4>(TokenStream::from("00A9")))
    );
}
