//! Tokens produced by the lexer, and their mathematical views.
use vstd::prelude::*;

verus! {

/// The ordered output of a successful lexing pass.
pub type TokenStream = Vec<Token>;

/// One classified unit of source text.
#[derive(Clone, Debug, PartialEq, Eq)]
pub enum Token {
    Operator(Operator),
    Literal(Literal),
    Keyword(Keyword),
    Identifier(String),
    Punctuation(Punctuation),
}

/// The fixed operator symbols.
#[derive(Clone, Copy, Debug, PartialEq, Eq, Structural)]
pub enum Operator {
    Add,
    Sub,
    Mul,
    Div,
    Pow,
    Mod,
    Range,
    Assign,
    Less,
    LessEquals,
    Equals,
    GreaterEquals,
    Greater,
    NotEquals,
}

/// A constant together with the exact source text it was read from
/// (quotes included, for strings).
#[derive(Clone, Debug, PartialEq, Eq)]
pub struct Literal {
    pub ty: LiteralType,
    pub literal: String,
}

/// The subtype of a literal.
#[derive(Clone, Copy, Debug, PartialEq, Eq, Structural)]
pub enum LiteralType {
    Number,
    String,
    Boolean,
}

/// The reserved words, matched without regard to letter case.
#[derive(Clone, Copy, Debug, PartialEq, Eq, Structural)]
pub enum Keyword {
    If,
    Elseif,
    Else,
    For,
    Let,
    Const,
    Function,
    Struct,
    Return,
    Continue,
    Break,
    While,
}

/// The fixed punctuation symbols; `EOL` is an explicit end-of-line marker.
#[derive(Clone, Copy, Debug, PartialEq, Eq, Structural)]
pub enum Punctuation {
    LeftParen,
    RightParen,
    LeftCurly,
    RightCurly,
    LeftSquare,
    RightSquare,
    Semicolon,
    Comma,
    EOL,
}

/// What a token is, with its text as a sequence of characters.
pub enum TokenView {
    Operator(Operator),
    Literal(LiteralType, Seq<char>),
    Keyword(Keyword),
    Identifier(Seq<char>),
    Punctuation(Punctuation),
}

impl View for Literal {
    type V = (LiteralType, Seq<char>);

    open spec fn view(&self) -> (LiteralType, Seq<char>) {
        (self.ty, self.literal@)
    }
}

impl View for Token {
    type V = TokenView;

    open spec fn view(&self) -> TokenView {
        match self {
            Token::Operator(o) => TokenView::Operator(*o),
            Token::Literal(l) => TokenView::Literal(l.ty, l.literal@),
            Token::Keyword(k) => TokenView::Keyword(*k),
            Token::Identifier(name) => TokenView::Identifier(name@),
            Token::Punctuation(p) => TokenView::Punctuation(*p),
        }
    }
}

/// The views of a sequence of tokens.
pub open spec fn tokens_view(ts: Seq<Token>) -> Seq<TokenView> {
    ts.map_values(|t: Token| t@)
}

/// The view of an optional token.
pub open spec fn opt_token_view(t: Option<Token>) -> Option<TokenView> {
    match t {
        Some(tok) => Some(tok@),
        None => None,
    }
}

/// Why a lexing pass failed.
#[derive(Clone, Copy, Debug, PartialEq, Eq, Structural)]
pub enum LexErrorKind {
    /// The candidate text can be classified as no token.
    UnrecognizedToken,
    /// A string ran to the end of the input without a closing quote.
    UnterminatedLiteral,
}

/// A failure of one scanner, with the text it had gathered.
#[derive(Clone, Debug, PartialEq, Eq)]
pub struct ScanError {
    pub kind: LexErrorKind,
    pub buffer: String,
}

/// A failure of a whole lexing pass: the scanner's failure, and the tokens
/// produced before it.
#[derive(Clone, Debug, PartialEq, Eq)]
pub struct LexError {
    pub kind: LexErrorKind,
    pub buffer: String,
    pub tokens: TokenStream,
}

/// The view of a lexing failure.
pub struct LexErrorView {
    pub kind: LexErrorKind,
    pub buffer: Seq<char>,
    pub tokens: Seq<TokenView>,
}

impl View for ScanError {
    type V = (LexErrorKind, Seq<char>);

    open spec fn view(&self) -> (LexErrorKind, Seq<char>) {
        (self.kind, self.buffer@)
    }
}

impl View for LexError {
    type V = LexErrorView;

    open spec fn view(&self) -> LexErrorView {
        LexErrorView { kind: self.kind, buffer: self.buffer@, tokens: tokens_view(self.tokens@) }
    }
}

} // verus!
