//! The printed forms of tokens.
use vstd::prelude::*;
use crate::chars::text_from;
use crate::types::{Keyword, Literal, LiteralType, Operator, Punctuation, Token, TokenView};

verus! {

/// The symbol of an operator.
pub open spec fn operator_text(x: Operator) -> Seq<char> {
    match x {
        Operator::Add => seq!['+'],
        Operator::Sub => seq!['-'],
        Operator::Mul => seq!['*'],
        Operator::Div => seq!['/'],
        Operator::Pow => seq!['^'],
        Operator::Mod => seq!['%'],
        Operator::Range => seq!['.', '.'],
        Operator::Assign => seq!['='],
        Operator::Less => seq!['<'],
        Operator::LessEquals => seq!['<', '='],
        Operator::Equals => seq!['=', '='],
        Operator::GreaterEquals => seq!['>', '='],
        Operator::Greater => seq!['>'],
        Operator::NotEquals => seq!['!', '='],
    }
}

/// The symbol of a punctuation; `EOL` prints as a line break.
pub open spec fn punctuation_text(x: Punctuation) -> Seq<char> {
    match x {
        Punctuation::LeftParen => seq!['('],
        Punctuation::RightParen => seq![')'],
        Punctuation::LeftCurly => seq!['{'],
        Punctuation::RightCurly => seq!['}'],
        Punctuation::LeftSquare => seq!['['],
        Punctuation::RightSquare => seq![']'],
        Punctuation::Semicolon => seq![';'],
        Punctuation::Comma => seq![','],
        Punctuation::EOL => seq!['\n'],
    }
}

/// The name of a keyword, capitalised.
pub open spec fn keyword_name(x: Keyword) -> Seq<char> {
    match x {
        Keyword::If => seq!['I', 'f'],
        Keyword::Elseif => seq!['E', 'l', 's', 'e', 'i', 'f'],
        Keyword::Else => seq!['E', 'l', 's', 'e'],
        Keyword::For => seq!['F', 'o', 'r'],
        Keyword::Let => seq!['L', 'e', 't'],
        Keyword::Const => seq!['C', 'o', 'n', 's', 't'],
        Keyword::Function => seq!['F', 'u', 'n', 'c', 't', 'i', 'o', 'n'],
        Keyword::Struct => seq!['S', 't', 'r', 'u', 'c', 't'],
        Keyword::Return => seq!['R', 'e', 't', 'u', 'r', 'n'],
        Keyword::Continue => seq!['C', 'o', 'n', 't', 'i', 'n', 'u', 'e'],
        Keyword::Break => seq!['B', 'r', 'e', 'a', 'k'],
        Keyword::While => seq!['W', 'h', 'i', 'l', 'e'],
    }
}

/// The name of a literal subtype.
pub open spec fn literal_type_name(x: LiteralType) -> Seq<char> {
    match x {
        LiteralType::Number => seq!['N', 'u', 'm', 'b', 'e', 'r'],
        LiteralType::String => seq!['S', 't', 'r', 'i', 'n', 'g'],
        LiteralType::Boolean => seq!['B', 'o', 'o', 'l', 'e', 'a', 'n'],
    }
}

/// The printed form of a token: an operator's or a punctuation's symbol, a
/// keyword's name, a literal's or an identifier's text.
pub open spec fn token_text(t: TokenView) -> Seq<char> {
    match t {
        TokenView::Operator(o) => operator_text(o),
        TokenView::Literal(_, text) => text,
        TokenView::Keyword(k) => keyword_name(k),
        TokenView::Identifier(name) => name,
        TokenView::Punctuation(p) => punctuation_text(p),
    }
}

impl Operator {
    /// The printed form.
    pub fn to_string(&self) -> (r: String)
        ensures
            r@ == operator_text(*self),
    {
        match self {
            Operator::Add => text_from(&['+']),
            Operator::Sub => text_from(&['-']),
            Operator::Mul => text_from(&['*']),
            Operator::Div => text_from(&['/']),
            Operator::Pow => text_from(&['^']),
            Operator::Mod => text_from(&['%']),
            Operator::Range => text_from(&['.', '.']),
            Operator::Assign => text_from(&['=']),
            Operator::Less => text_from(&['<']),
            Operator::LessEquals => text_from(&['<', '=']),
            Operator::Equals => text_from(&['=', '=']),
            Operator::GreaterEquals => text_from(&['>', '=']),
            Operator::Greater => text_from(&['>']),
            Operator::NotEquals => text_from(&['!', '=']),
        }
    }
}

impl Punctuation {
    /// The printed form.
    pub fn to_string(&self) -> (r: String)
        ensures
            r@ == punctuation_text(*self),
    {
        match self {
            Punctuation::LeftParen => text_from(&['(']),
            Punctuation::RightParen => text_from(&[')']),
            Punctuation::LeftCurly => text_from(&['{']),
            Punctuation::RightCurly => text_from(&['}']),
            Punctuation::LeftSquare => text_from(&['[']),
            Punctuation::RightSquare => text_from(&[']']),
            Punctuation::Semicolon => text_from(&[';']),
            Punctuation::Comma => text_from(&[',']),
            Punctuation::EOL => text_from(&['\n']),
        }
    }
}

impl Keyword {
    /// The printed form.
    pub fn to_string(&self) -> (r: String)
        ensures
            r@ == keyword_name(*self),
    {
        match self {
            Keyword::If => text_from(&['I', 'f']),
            Keyword::Elseif => text_from(&['E', 'l', 's', 'e', 'i', 'f']),
            Keyword::Else => text_from(&['E', 'l', 's', 'e']),
            Keyword::For => text_from(&['F', 'o', 'r']),
            Keyword::Let => text_from(&['L', 'e', 't']),
            Keyword::Const => text_from(&['C', 'o', 'n', 's', 't']),
            Keyword::Function => text_from(&['F', 'u', 'n', 'c', 't', 'i', 'o', 'n']),
            Keyword::Struct => text_from(&['S', 't', 'r', 'u', 'c', 't']),
            Keyword::Return => text_from(&['R', 'e', 't', 'u', 'r', 'n']),
            Keyword::Continue => text_from(&['C', 'o', 'n', 't', 'i', 'n', 'u', 'e']),
            Keyword::Break => text_from(&['B', 'r', 'e', 'a', 'k']),
            Keyword::While => text_from(&['W', 'h', 'i', 'l', 'e']),
        }
    }
}

impl LiteralType {
    /// The printed form.
    pub fn to_string(&self) -> (r: String)
        ensures
            r@ == literal_type_name(*self),
    {
        match self {
            LiteralType::Number => text_from(&['N', 'u', 'm', 'b', 'e', 'r']),
            LiteralType::String => text_from(&['S', 't', 'r', 'i', 'n', 'g']),
            LiteralType::Boolean => text_from(&['B', 'o', 'o', 'l', 'e', 'a', 'n']),
        }
    }
}

impl Literal {
    /// The literal's source text.
    pub fn to_string(&self) -> (r: String)
        ensures
            r@ == self.literal@,
    {
        self.literal.clone()
    }
}

impl Token {
    /// The printed form of the token.
    pub fn to_string(&self) -> (r: String)
        ensures
            r@ == token_text(self@),
    {
        match self {
            Token::Operator(o) => o.to_string(),
            Token::Literal(l) => l.to_string(),
            Token::Keyword(k) => k.to_string(),
            Token::Identifier(name) => name.clone(),
            Token::Punctuation(p) => p.to_string(),
        }
    }
}

} // verus!
