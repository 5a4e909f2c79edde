use lexer::{
    lex, scan, scan_number, scan_string, Keyword, LexErrorKind, Literal, LiteralType, Operator,
    Punctuation, Token,
};

fn chars(s: &str) -> Vec<char> {
    s.chars().collect()
}

fn rest_after(src: &[char], n: usize) -> String {
    src[n..].iter().collect()
}

fn ident(s: &str) -> Token {
    Token::Identifier(s.to_owned())
}

fn lit(ty: LiteralType, s: &str) -> Token {
    Token::Literal(Literal { ty, literal: s.to_owned() })
}

#[test]
fn test_scan_string() {
    let src = chars("'Hello World!'aaaaaa");
    let res = scan_string(&src, 0).unwrap();
    assert_eq!(
        res.0,
        Token::Literal(Literal {
            ty: LiteralType::String,
            literal: "'Hello World!'".to_owned()
        })
    );
    assert_eq!(rest_after(&src, res.1), "aaaaaa".to_owned());
}

#[test]
fn test_scan_number() {
    let src = chars("1.1211231233aaaaaaa");
    let res = scan_number(&src, 0).unwrap();
    assert_eq!(
        res.0,
        Token::Literal(Literal {
            ty: LiteralType::Number,
            literal: "1.1211231233".to_owned(),
        })
    );
    assert_eq!(rest_after(&src, res.1), "aaaaaaa".to_owned());
}

#[test]
fn test_scan() {
    let src = chars("let");
    let res = scan(&src, 0).unwrap();
    assert_eq!(res.0, Token::Keyword(Keyword::Let));
    let src = chars("return a;");
    let res = scan(&src, 0).unwrap();
    assert_eq!(res.0, Token::Keyword(Keyword::Return));
    let src = chars("for");
    let res = scan(&src, 0).unwrap();
    assert_eq!(res.0, Token::Keyword(Keyword::For));
    let src = chars("apple1, apple2 = 1.2, 2.4;");
    let res = scan(&src, 0).unwrap();
    assert_eq!(res.0, Token::Identifier("apple1".to_owned()));
}

#[test]
fn test_lex() {
    let expected = vec![
        Token::Keyword(Keyword::Let),
        Token::Identifier("x".to_owned()),
        Token::Operator(Operator::Assign),
        Token::Literal(Literal {
            ty: LiteralType::Number,
            literal: "10".to_owned(),
        }),
        Token::Punctuation(Punctuation::Semicolon),
        Token::Keyword(Keyword::Let),
        Token::Identifier("y".to_owned()),
        Token::Operator(Operator::Assign),
        Token::Literal(Literal {
            ty: LiteralType::Number,
            literal: "11".to_owned(),
        }),
        Token::Punctuation(Punctuation::Semicolon),
        Token::Keyword(Keyword::Let),
        Token::Identifier("z".to_owned()),
        Token::Operator(Operator::Assign),
        Token::Identifier("x".to_owned()),
        Token::Operator(Operator::Add),
        Token::Identifier("y".to_owned()),
        Token::Punctuation(Punctuation::Semicolon),
        Token::Keyword(Keyword::Let),
        Token::Identifier("xyz".to_owned()),
        Token::Operator(Operator::Assign),
        Token::Identifier("x".to_owned()),
        Token::Operator(Operator::Add),
        Token::Identifier("y".to_owned()),
        Token::Operator(Operator::Add),
        Token::Identifier("z".to_owned()),
        Token::Punctuation(Punctuation::Semicolon),
        Token::Identifier("print".to_owned()),
        Token::Punctuation(Punctuation::LeftParen),
        Token::Identifier("xyz".to_owned()),
        Token::Punctuation(Punctuation::RightParen),
        Token::Punctuation(Punctuation::Semicolon),
    ];

    let result = lex(r#"
            let x = 10;
            let y = 11;
            let z = x + y;
            let xyz = x + y + z;
            print(xyz);
            "#
    .to_owned());

    assert_eq!(expected, result.unwrap());
}

#[test]
fn whitespace_only_gives_no_tokens() {
    assert_eq!(lex(String::new()).unwrap(), vec![]);
    assert_eq!(lex(" \t\r\n  \u{a0}\u{3000}".to_owned()).unwrap(), vec![]);
}

#[test]
fn longest_word_wins_over_keyword_prefix() {
    assert_eq!(lex("lets".to_owned()).unwrap(), vec![ident("lets")]);
}

#[test]
fn keywords_ignore_case_but_booleans_do_not() {
    assert_eq!(lex("LET".to_owned()).unwrap(), vec![Token::Keyword(Keyword::Let)]);
    assert_eq!(lex("True".to_owned()).unwrap(), vec![ident("True")]);
}

#[test]
fn boolean_literal_beats_identifier() {
    assert_eq!(lex("true".to_owned()).unwrap(), vec![lit(LiteralType::Boolean, "true")]);
    assert_eq!(lex("false".to_owned()).unwrap(), vec![lit(LiteralType::Boolean, "false")]);
}

#[test]
fn number_consumes_exactly_its_characters() {
    assert_eq!(lex("12.5".to_owned()).unwrap(), vec![lit(LiteralType::Number, "12.5")]);
    let src = chars("12.5");
    let (tok, n) = scan_number(&src, 0).unwrap();
    assert_eq!(tok, lit(LiteralType::Number, "12.5"));
    assert_eq!(n, 4);
}

#[test]
fn string_then_identifier() {
    assert_eq!(
        lex("'ab' X".to_owned()).unwrap(),
        vec![lit(LiteralType::String, "'ab'"), ident("X")]
    );
}

#[test]
fn two_character_operator_is_not_split() {
    assert_eq!(
        lex("a<=b".to_owned()).unwrap(),
        vec![ident("a"), Token::Operator(Operator::LessEquals), ident("b")]
    );
}

#[test]
fn range_operator_from_symbol_mode() {
    assert_eq!(
        lex("a..b".to_owned()).unwrap(),
        vec![ident("a"), Token::Operator(Operator::Range), ident("b")]
    );
}

#[test]
fn dots_after_digits_stay_in_the_number() {
    assert_eq!(
        lex("1..5".to_owned()).unwrap(),
        vec![
            lit(LiteralType::Number, "1"),
            Token::Operator(Operator::Range),
            lit(LiteralType::Number, "5")
        ]
    );
    let src = chars("1..5");
    let (tok, n) = scan_number(&src, 0).unwrap();
    assert_eq!(tok, lit(LiteralType::Number, "1"));
    assert_eq!(n, 1);
    assert_eq!(
        lex("1.2..3.".to_owned()).unwrap(),
        vec![
            lit(LiteralType::Number, "1.2"),
            Token::Operator(Operator::Range),
            lit(LiteralType::Number, "3.")
        ]
    );
}

#[test]
fn keywords_fold_unicode_case() {
    assert_eq!(Keyword::from_text(&"brea\u{212a}".to_owned()), Some(Keyword::Break));
    assert_eq!(Keyword::from_text(&"ELSEIF".to_owned()), Some(Keyword::Elseif));
    assert_eq!(Keyword::from_lowercase(&"while".to_owned()), Some(Keyword::While));
    assert_eq!(Keyword::from_lowercase(&"While".to_owned()), None);
    assert_eq!(
        Token::classify(&"Whil\u{212a}".to_owned()),
        None
    );
}

#[test]
fn unterminated_string_fails() {
    let err = lex("'abc".to_owned()).unwrap_err();
    assert_eq!(err.kind, LexErrorKind::UnterminatedLiteral);
    assert_eq!(err.buffer, "'abc".to_owned());
    assert!(err.tokens.is_empty());
}

#[test]
fn two_statements() {
    let expected = vec![
        Token::Keyword(Keyword::Let),
        ident("x"),
        Token::Operator(Operator::Assign),
        lit(LiteralType::Number, "10"),
        Token::Punctuation(Punctuation::Semicolon),
        Token::Keyword(Keyword::Let),
        ident("y"),
        Token::Operator(Operator::Assign),
        ident("x"),
        Token::Operator(Operator::Add),
        lit(LiteralType::Number, "1"),
        Token::Punctuation(Punctuation::Semicolon),
    ];
    assert_eq!(lex("let x = 10;\nlet y = x + 1;".to_owned()).unwrap(), expected);
}

#[test]
fn unknown_operator_run_fails_with_tokens_so_far() {
    let err = lex("a =! b".to_owned()).unwrap_err();
    assert_eq!(err.kind, LexErrorKind::UnrecognizedToken);
    assert_eq!(err.buffer, "=!".to_owned());
    assert_eq!(err.tokens, vec![ident("a")]);
}

#[test]
fn unknown_symbol_fails() {
    let err = lex("x # y".to_owned()).unwrap_err();
    assert_eq!(err.kind, LexErrorKind::UnrecognizedToken);
    assert_eq!(err.buffer, "# y".to_owned());
    assert_eq!(err.tokens, vec![ident("x")]);
}

#[test]
fn mismatched_quotes_fail() {
    let err = lex("'abc\"".to_owned()).unwrap_err();
    assert_eq!(err.kind, LexErrorKind::UnrecognizedToken);
    assert_eq!(err.buffer, "'abc\"".to_owned());
}

#[test]
fn double_quoted_string_keeps_quotes() {
    assert_eq!(
        lex("\"hi there\";".to_owned()).unwrap(),
        vec![lit(LiteralType::String, "\"hi there\""), Token::Punctuation(Punctuation::Semicolon)]
    );
}

#[test]
fn all_operators() {
    let toks = lex("+ - * / ^ % .. = < <= == >= > !=".to_owned()).unwrap();
    let expected: Vec<Token> = vec![
        Operator::Add,
        Operator::Sub,
        Operator::Mul,
        Operator::Div,
        Operator::Pow,
        Operator::Mod,
        Operator::Range,
        Operator::Assign,
        Operator::Less,
        Operator::LessEquals,
        Operator::Equals,
        Operator::GreaterEquals,
        Operator::Greater,
        Operator::NotEquals,
    ]
    .into_iter()
    .map(Token::Operator)
    .collect();
    assert_eq!(toks, expected);
}

#[test]
fn all_punctuation_and_keywords() {
    let toks = lex("( ) { } [ ] ; ,".to_owned()).unwrap();
    assert_eq!(toks.len(), 8);
    assert_eq!(toks[0], Token::Punctuation(Punctuation::LeftParen));
    assert_eq!(toks[7], Token::Punctuation(Punctuation::Comma));
    let toks =
        lex("if ElseIf else FOR let const function struct return continue break while".to_owned())
            .unwrap();
    let expected: Vec<Token> = vec![
        Keyword::If,
        Keyword::Elseif,
        Keyword::Else,
        Keyword::For,
        Keyword::Let,
        Keyword::Const,
        Keyword::Function,
        Keyword::Struct,
        Keyword::Return,
        Keyword::Continue,
        Keyword::Break,
        Keyword::While,
    ]
    .into_iter()
    .map(Token::Keyword)
    .collect();
    assert_eq!(toks, expected);
}

#[test]
fn classifier_priority_and_literal_patterns() {
    let c = |s: &str| Token::classify(&s.to_owned());
    assert_eq!(c("-"), Some(Token::Operator(Operator::Sub)));
    assert_eq!(c("-12.5"), Some(lit(LiteralType::Number, "-12.5")));
    assert_eq!(c("."), Some(lit(LiteralType::Number, ".")));
    assert_eq!(c("if"), Some(Token::Keyword(Keyword::If)));
    assert_eq!(c(";"), Some(Token::Punctuation(Punctuation::Semicolon)));
    assert_eq!(c("\n"), Some(Token::Punctuation(Punctuation::EOL)));
    assert_eq!(c("'a\nb'"), Some(lit(LiteralType::String, "'a\nb'")));
    assert_eq!(c("x1"), None);
    assert_eq!(c("1x"), None);
    assert_eq!(c("truex"), None);
    assert_eq!(c("'a"), None);
    assert_eq!(LiteralType::of_text(&"--1".to_owned()), None);
    assert_eq!(LiteralType::of_text(&"\"\"".to_owned()), Some(LiteralType::String));
    assert_eq!(Keyword::from_text(&"WhIlE".to_owned()), Some(Keyword::While));
    assert_eq!(Operator::from_text(&"=<".to_owned()), None);
    assert_eq!(Punctuation::from_text(&"((".to_owned()), None);
}

#[test]
fn printed_forms() {
    assert_eq!(Operator::GreaterEquals.to_string(), "<=".replace('<', ">"));
    assert_eq!(Operator::Range.to_string(), "..");
    assert_eq!(Keyword::Elseif.to_string(), "Elseif");
    assert_eq!(Punctuation::EOL.to_string(), "\n");
    assert_eq!(LiteralType::Boolean.to_string(), "Boolean");
    assert_eq!(lit(LiteralType::String, "'q'").to_string(), "'q'");
    assert_eq!(ident("abc").to_string(), "abc");
    assert_eq!(Token::Punctuation(Punctuation::RightCurly).to_string(), "}");
}
