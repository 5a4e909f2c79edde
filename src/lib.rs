//! A lexer for a small scripting language: source text in, classified
//! tokens out.
pub mod chars;
pub mod classify;
pub mod lexer;
pub mod printed;
pub mod scan;
pub mod types;

pub use lexer::lex;
pub use scan::{scan, scan_number, scan_string};
pub use types::{
    Keyword, LexError, LexErrorKind, Literal, LiteralType, Operator, Punctuation, ScanError, Token,
    TokenStream,
};
