//! Classification of a complete candidate text into a token.
use vstd::prelude::*;
use crate::chars::{chars_of, is_number_char, is_quote, is_single, same_chars};
use crate::types::{
    opt_token_view, Keyword, Literal, LiteralType, Operator, Punctuation, Token, TokenView,
};

verus! {

/// A number: digits and dots, at least one, after an optional leading minus.
pub const NUMBER_PATTERN: &'static str = r"^-?[0-9.]+$";

/// Exactly `true` or `false`.
pub const BOOLEAN_PATTERN: &'static str = r"^(true|false)$";

/// A text that starts and ends with the same quote, anything between.
pub const STRING_PATTERN: &'static str = r#"(?s)^(".*"|'.*')$"#;

/// The operator whose symbol is exactly `t`.
pub open spec fn operator_of(t: Seq<char>) -> Option<Operator> {
    if t == seq!['+'] {
        Some(Operator::Add)
    } else if t == seq!['-'] {
        Some(Operator::Sub)
    } else if t == seq!['*'] {
        Some(Operator::Mul)
    } else if t == seq!['/'] {
        Some(Operator::Div)
    } else if t == seq!['^'] {
        Some(Operator::Pow)
    } else if t == seq!['%'] {
        Some(Operator::Mod)
    } else if t == seq!['.', '.'] {
        Some(Operator::Range)
    } else if t == seq!['='] {
        Some(Operator::Assign)
    } else if t == seq!['<'] {
        Some(Operator::Less)
    } else if t == seq!['<', '='] {
        Some(Operator::LessEquals)
    } else if t == seq!['=', '='] {
        Some(Operator::Equals)
    } else if t == seq!['>', '='] {
        Some(Operator::GreaterEquals)
    } else if t == seq!['>'] {
        Some(Operator::Greater)
    } else if t == seq!['!', '='] {
        Some(Operator::NotEquals)
    } else {
        None
    }
}

/// The punctuation whose symbol is exactly `t`.
pub open spec fn punctuation_of(t: Seq<char>) -> Option<Punctuation> {
    if t == seq!['('] {
        Some(Punctuation::LeftParen)
    } else if t == seq![')'] {
        Some(Punctuation::RightParen)
    } else if t == seq!['{'] {
        Some(Punctuation::LeftCurly)
    } else if t == seq!['}'] {
        Some(Punctuation::RightCurly)
    } else if t == seq!['['] {
        Some(Punctuation::LeftSquare)
    } else if t == seq![']'] {
        Some(Punctuation::RightSquare)
    } else if t == seq![';'] {
        Some(Punctuation::Semicolon)
    } else if t == seq![','] {
        Some(Punctuation::Comma)
    } else if t == seq!['\n'] {
        Some(Punctuation::EOL)
    } else {
        None
    }
}

/// The Unicode lower-case form of a text, as `str::to_lowercase` gives it.
pub uninterp spec fn lower_of(s: Seq<char>) -> Seq<char>;

/// The keyword whose lower-case name is exactly `l`.
pub open spec fn keyword_named(l: Seq<char>) -> Option<Keyword> {
    if l == seq!['i', 'f'] {
        Some(Keyword::If)
    } else if l == seq!['e', 'l', 's', 'e', 'i', 'f'] {
        Some(Keyword::Elseif)
    } else if l == seq!['e', 'l', 's', 'e'] {
        Some(Keyword::Else)
    } else if l == seq!['f', 'o', 'r'] {
        Some(Keyword::For)
    } else if l == seq!['l', 'e', 't'] {
        Some(Keyword::Let)
    } else if l == seq!['c', 'o', 'n', 's', 't'] {
        Some(Keyword::Const)
    } else if l == seq!['f', 'u', 'n', 'c', 't', 'i', 'o', 'n'] {
        Some(Keyword::Function)
    } else if l == seq!['s', 't', 'r', 'u', 'c', 't'] {
        Some(Keyword::Struct)
    } else if l == seq!['r', 'e', 't', 'u', 'r', 'n'] {
        Some(Keyword::Return)
    } else if l == seq!['c', 'o', 'n', 't', 'i', 'n', 'u', 'e'] {
        Some(Keyword::Continue)
    } else if l == seq!['b', 'r', 'e', 'a', 'k'] {
        Some(Keyword::Break)
    } else if l == seq!['w', 'h', 'i', 'l', 'e'] {
        Some(Keyword::While)
    } else {
        None
    }
}

/// The keyword spelled by `t`, ignoring letter case.
pub open spec fn keyword_of(t: Seq<char>) -> Option<Keyword> {
    keyword_named(lower_of(t))
}

/// `t` is digits and dots, at least one, after an optional leading `-`.
pub open spec fn is_number_text(t: Seq<char>) -> bool {
    let body = if t.len() > 0 && t[0] == '-' {
        t.drop_first()
    } else {
        t
    };
    body.len() > 0 && forall|i: int| 0 <= i < body.len() ==> is_number_char(#[trigger] body[i])
}

/// `t` is exactly `true` or `false`, in lower case.
pub open spec fn is_boolean_text(t: Seq<char>) -> bool {
    t == seq!['t', 'r', 'u', 'e'] || t == seq!['f', 'a', 'l', 's', 'e']
}

/// `t` begins and ends with the same quote character.
pub open spec fn is_string_text(t: Seq<char>) -> bool {
    t.len() >= 2 && is_quote(t[0]) && t[t.len() - 1] == t[0]
}

/// The literal subtype of `t`, tried in the order number, boolean, string.
pub open spec fn literal_type_of(t: Seq<char>) -> Option<LiteralType> {
    if is_number_text(t) {
        Some(LiteralType::Number)
    } else if is_boolean_text(t) {
        Some(LiteralType::Boolean)
    } else if is_string_text(t) {
        Some(LiteralType::String)
    } else {
        None
    }
}

/// The token that `t` forms on its own, tried in the order operator,
/// literal, keyword, punctuation.
pub open spec fn token_of(t: Seq<char>) -> Option<TokenView> {
    if let Some(o) = operator_of(t) {
        Some(TokenView::Operator(o))
    } else if let Some(ty) = literal_type_of(t) {
        Some(TokenView::Literal(ty, t))
    } else if let Some(k) = keyword_of(t) {
        Some(TokenView::Keyword(k))
    } else if let Some(p) = punctuation_of(t) {
        Some(TokenView::Punctuation(p))
    } else {
        None
    }
}

/// The operator or punctuation token that `t` forms on its own.
pub open spec fn symbol_of(t: Seq<char>) -> Option<TokenView> {
    if let Some(o) = operator_of(t) {
        Some(TokenView::Operator(o))
    } else if let Some(p) = punctuation_of(t) {
        Some(TokenView::Punctuation(p))
    } else {
        None
    }
}

/// Relies on `str::to_lowercase`: the lower-case form of a text, which
/// depends on its characters alone.
#[verifier::external_body]
fn lowercase(s: &str) -> (r: String)
    ensures
        r@ == lower_of(s@),
{
    s.to_lowercase()
}

/// Relies on `regex::Regex::new`, which compiles each of the three literal
/// patterns without error, and `Regex::is_match`, which reports whether the
/// compiled pattern matches `text`. Each pattern is anchored at both ends, so
/// a match covers the whole text.
#[verifier::external_body]
fn regex_is_match(pattern: &str, text: &str) -> (r: bool)
    requires
        pattern == NUMBER_PATTERN || pattern == BOOLEAN_PATTERN || pattern == STRING_PATTERN,
    ensures
        pattern == NUMBER_PATTERN ==> r == is_number_text(text@),
        pattern == BOOLEAN_PATTERN ==> r == is_boolean_text(text@),
        pattern == STRING_PATTERN ==> r == is_string_text(text@),
{
    regex::Regex::new(pattern).unwrap().is_match(text)
}

impl Operator {
    /// The operator whose symbol is exactly `s`.
    pub fn from_text(s: &String) -> (r: Option<Operator>)
        ensures
            r == operator_of(s@),
    {
        let cs = chars_of(s.as_str());
        let t = cs.as_slice();
        if is_single(t, '+') {
            Some(Operator::Add)
        } else if is_single(t, '-') {
            Some(Operator::Sub)
        } else if is_single(t, '*') {
            Some(Operator::Mul)
        } else if is_single(t, '/') {
            Some(Operator::Div)
        } else if is_single(t, '^') {
            Some(Operator::Pow)
        } else if is_single(t, '%') {
            Some(Operator::Mod)
        } else if same_chars(t, &['.', '.']) {
            Some(Operator::Range)
        } else if is_single(t, '=') {
            Some(Operator::Assign)
        } else if is_single(t, '<') {
            Some(Operator::Less)
        } else if same_chars(t, &['<', '=']) {
            Some(Operator::LessEquals)
        } else if same_chars(t, &['=', '=']) {
            Some(Operator::Equals)
        } else if same_chars(t, &['>', '=']) {
            Some(Operator::GreaterEquals)
        } else if is_single(t, '>') {
            Some(Operator::Greater)
        } else if same_chars(t, &['!', '=']) {
            Some(Operator::NotEquals)
        } else {
            None
        }
    }
}

impl Punctuation {
    /// The punctuation whose symbol is exactly `s`.
    pub fn from_text(s: &String) -> (r: Option<Punctuation>)
        ensures
            r == punctuation_of(s@),
    {
        let cs = chars_of(s.as_str());
        let t = cs.as_slice();
        if is_single(t, '(') {
            Some(Punctuation::LeftParen)
        } else if is_single(t, ')') {
            Some(Punctuation::RightParen)
        } else if is_single(t, '{') {
            Some(Punctuation::LeftCurly)
        } else if is_single(t, '}') {
            Some(Punctuation::RightCurly)
        } else if is_single(t, '[') {
            Some(Punctuation::LeftSquare)
        } else if is_single(t, ']') {
            Some(Punctuation::RightSquare)
        } else if is_single(t, ';') {
            Some(Punctuation::Semicolon)
        } else if is_single(t, ',') {
            Some(Punctuation::Comma)
        } else if is_single(t, '\n') {
            Some(Punctuation::EOL)
        } else {
            None
        }
    }
}

impl Keyword {
    /// The keyword spelled by `s`, ignoring letter case.
    pub fn from_text(s: &String) -> (r: Option<Keyword>)
        ensures
            r == keyword_of(s@),
    {
        let low = lowercase(s.as_str());
        Keyword::from_lowercase(&low)
    }

    /// The keyword whose lower-case name is exactly `l`.
    pub fn from_lowercase(l: &String) -> (r: Option<Keyword>)
        ensures
            r == keyword_named(l@),
    {
        let cs = chars_of(l.as_str());
        let l = cs.as_slice();
        if same_chars(l, &['i', 'f']) {
            Some(Keyword::If)
        } else if same_chars(l, &['e', 'l', 's', 'e', 'i', 'f']) {
            Some(Keyword::Elseif)
        } else if same_chars(l, &['e', 'l', 's', 'e']) {
            Some(Keyword::Else)
        } else if same_chars(l, &['f', 'o', 'r']) {
            Some(Keyword::For)
        } else if same_chars(l, &['l', 'e', 't']) {
            Some(Keyword::Let)
        } else if same_chars(l, &['c', 'o', 'n', 's', 't']) {
            Some(Keyword::Const)
        } else if same_chars(l, &['f', 'u', 'n', 'c', 't', 'i', 'o', 'n']) {
            Some(Keyword::Function)
        } else if same_chars(l, &['s', 't', 'r', 'u', 'c', 't']) {
            Some(Keyword::Struct)
        } else if same_chars(l, &['r', 'e', 't', 'u', 'r', 'n']) {
            Some(Keyword::Return)
        } else if same_chars(l, &['c', 'o', 'n', 't', 'i', 'n', 'u', 'e']) {
            Some(Keyword::Continue)
        } else if same_chars(l, &['b', 'r', 'e', 'a', 'k']) {
            Some(Keyword::Break)
        } else if same_chars(l, &['w', 'h', 'i', 'l', 'e']) {
            Some(Keyword::While)
        } else {
            None
        }
    }
}

impl LiteralType {
    /// The literal subtype of `s`, tried in the order number, boolean,
    /// string.
    pub fn of_text(s: &String) -> (r: Option<LiteralType>)
        ensures
            r == literal_type_of(s@),
    {
        let t = s.as_str();
        if regex_is_match(NUMBER_PATTERN, t) {
            Some(LiteralType::Number)
        } else if regex_is_match(BOOLEAN_PATTERN, t) {
            Some(LiteralType::Boolean)
        } else if regex_is_match(STRING_PATTERN, t) {
            Some(LiteralType::String)
        } else {
            None
        }
    }
}

impl Literal {
    /// The literal that `s` forms, holding a copy of `s` as its text.
    pub fn from_text(s: &String) -> (r: Option<Literal>)
        ensures
            match literal_type_of(s@) {
                Some(ty) => r matches Some(l) && l@ == (ty, s@),
                None => r is None,
            },
    {
        match LiteralType::of_text(s) {
            Some(ty) => Some(Literal { ty, literal: s.clone() }),
            None => None,
        }
    }
}

impl Token {
    /// The token that `s` forms on its own, tried in the order operator,
    /// literal, keyword, punctuation.
    pub fn classify(s: &String) -> (r: Option<Token>)
        ensures
            opt_token_view(r) == token_of(s@),
    {
        if let Some(o) = Operator::from_text(s) {
            Some(Token::Operator(o))
        } else if let Some(l) = Literal::from_text(s) {
            Some(Token::Literal(l))
        } else if let Some(k) = Keyword::from_text(s) {
            Some(Token::Keyword(k))
        } else if let Some(p) = Punctuation::from_text(s) {
            Some(Token::Punctuation(p))
        } else {
            None
        }
    }

    /// The operator or punctuation token that `s` forms on its own.
    pub fn classify_symbol(s: &String) -> (r: Option<Token>)
        ensures
            opt_token_view(r) == symbol_of(s@),
    {
        if let Some(o) = Operator::from_text(s) {
            Some(Token::Operator(o))
        } else if let Some(p) = Punctuation::from_text(s) {
            Some(Token::Punctuation(p))
        } else {
            None
        }
    }
}

} // verus!
