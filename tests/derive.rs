use parserc::errors::{ControlFlow, Kind};
use parserc::lang::TokenStream;
use parserc::lexer::{keyword, take_while};
use parserc::span::Span;
use parserc::syntax::Syntax;

#[derive(Debug, PartialEq)]
struct Ident<'a>(TokenStream<'a>);

impl<'a> Syntax<'a, Kind> for Ident<'a> {
    // Relations used in proofs; these fixtures are not proved.
    fn parsed(_pre: TokenStream<'a>, _post: TokenStream<'a>, _r: Result<Self, Kind>) -> bool {
        true
    }

    fn span_spec(&self) -> Span {
        self.to_span()
    }

    fn parse(input: &mut TokenStream<'a>) -> Result<Self, Kind> {
        take_while(input, |c: u8| c.is_ascii()).map(Ident)
    }

    fn to_span(&self) -> Span {
        self.0.to_span()
    }
}

#[derive(Debug, PartialEq)]
struct Iden3<'a> {
    ident: Ident<'a>,
}

impl<'a> Syntax<'a, Kind> for Iden3<'a> {
    // Relations used in proofs; these fixtures are not proved.
    fn parsed(_pre: TokenStream<'a>, _post: TokenStream<'a>, _r: Result<Self, Kind>) -> bool {
        true
    }

    fn span_spec(&self) -> Span {
        self.to_span()
    }

    fn parse(input: &mut TokenStream<'a>) -> Result<Self, Kind> {
        Ok(Iden3 { ident: Ident::parse(input)? })
    }

    fn to_span(&self) -> Span {
        self.ident.to_span()
    }
}

#[derive(Debug, PartialEq)]
struct KeywordFn<'a>(TokenStream<'a>);

impl<'a> Syntax<'a, Kind> for KeywordFn<'a> {
    // Relations used in proofs; these fixtures are not proved.
    fn parsed(_pre: TokenStream<'a>, _post: TokenStream<'a>, _r: Result<Self, Kind>) -> bool {
        true
    }

    fn span_spec(&self) -> Span {
        self.to_span()
    }

    fn parse(input: &mut TokenStream<'a>) -> Result<Self, Kind> {
        keyword(input, b"fn").map(KeywordFn)
    }

    fn to_span(&self) -> Span {
        self.0.to_span()
    }
}

#[derive(Debug, PartialEq)]
struct Class<'a>(TokenStream<'a>);

impl<'a> Syntax<'a, Kind> for Class<'a> {
    // Relations used in proofs; these fixtures are not proved.
    fn parsed(_pre: TokenStream<'a>, _post: TokenStream<'a>, _r: Result<Self, Kind>) -> bool {
        true
    }

    fn span_spec(&self) -> Span {
        self.to_span()
    }

    fn parse(input: &mut TokenStream<'a>) -> Result<Self, Kind> {
        keyword(input, b"class").map(Class)
    }

    fn to_span(&self) -> Span {
        self.0.to_span()
    }
}

#[derive(Debug, PartialEq)]
struct Variable<'a>(TokenStream<'a>);

impl<'a> Syntax<'a, Kind> for Variable<'a> {
    // Relations used in proofs; these fixtures are not proved.
    fn parsed(_pre: TokenStream<'a>, _post: TokenStream<'a>, _r: Result<Self, Kind>) -> bool {
        true
    }

    fn span_spec(&self) -> Span {
        self.to_span()
    }

    fn parse(input: &mut TokenStream<'a>) -> Result<Self, Kind> {
        take_while(input, |c: u8| c.is_ascii_alphabetic()).map(Variable)
    }

    fn to_span(&self) -> Span {
        self.0.to_span()
    }
}

#[test]
fn test_a() {
    let mut input = TokenStream::from("hello world");
    Iden3::parse(&mut input).unwrap();

    let mut input = TokenStream::from("fn");
    KeywordFn::parse(&mut input).unwrap();
    let mut input = TokenStream::from("class");
    Class::parse(&mut input).unwrap();
}

#[test]
fn test_token() {
    let mut input = TokenStream::from("fn");

    assert_eq!(
        Variable::parse(&mut input),
        Ok(Variable(TokenStream::from("fn")))
    );
}

#[test]
fn keyword_fn_consumes_two_bytes() {
    let mut input = TokenStream::from("fn");
    let kw = KeywordFn::parse(&mut input).unwrap();
    assert_eq!(kw.to_span(), Span::Range(0, 2));
    assert_eq!(input.len(), 0);
    assert_eq!(input.start(), 2);

    let mut input = TokenStream::from("fnx");
    let kw = KeywordFn::parse(&mut input).unwrap();
    assert_eq!(kw.to_span(), Span::Range(0, 2));
    assert_eq!(input.as_bytes(), b"x");

    let mut input = TokenStream::from("f");
    assert_eq!(
        KeywordFn::parse(&mut input),
        Err(Kind::Keyword(ControlFlow::Recovable, Span::Range(0, 1)))
    );
}
