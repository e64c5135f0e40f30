//! Lexer behaviour: literal classification, raw token kinds, and the
//! collected token stream of whole programs.

use styxc::lexer::{Base, LexerError, LiteralKind, Token, TokenKind, TokenLexer};

#[test]
fn test_int() {
    let mut lexer = LiteralKind::lexer("1234");
    assert_eq!(lexer.next(), Some(LiteralKind::Int(Base::Decimal)))
}

#[test]
fn test_int_hex() {
    let mut lexer = LiteralKind::lexer("0x1234");
    assert_eq!(lexer.next(), Some(LiteralKind::Int(Base::Hexadecimal)))
}

#[test]
fn test_int_oct() {
    let mut lexer = LiteralKind::lexer("0o1234");
    assert_eq!(lexer.next(), Some(LiteralKind::Int(Base::Octal)))
}

#[test]
fn test_int_bin() {
    let mut lexer = LiteralKind::lexer("0b10100");
    assert_eq!(lexer.next(), Some(LiteralKind::Int(Base::Binary)))
}

#[test]
fn test_float() {
    let mut lexer = LiteralKind::lexer("12.34");
    assert_eq!(lexer.next(), Some(LiteralKind::Float(Base::Decimal)))
}

#[test]
fn test_float_exp() {
    let mut lexer = LiteralKind::lexer("12.34e-5");
    assert_eq!(lexer.next(), Some(LiteralKind::Float(Base::Decimal)));
    let mut lexer = LiteralKind::lexer("-432e+10");
    assert_eq!(lexer.next(), Some(LiteralKind::Float(Base::Decimal)));
}

#[test]
fn test_char() {
    let mut lexer = LiteralKind::lexer("'a'");
    assert_eq!(lexer.next(), Some(LiteralKind::Char));
}

#[test]
fn test_unicode_char() {
    let mut lexer = LiteralKind::lexer("'\\u1234'");
    assert_eq!(lexer.next(), Some(LiteralKind::Char));
}

#[test]
fn test_string() {
    let mut lexer = LiteralKind::lexer("\"foo\"");
    assert_eq!(lexer.next(), Some(LiteralKind::String));
}

#[test]
fn test_ident() {
    let mut lexer = TokenKind::lexer("hello_world i_like_foxes_123 xbox360");
    assert_eq!(lexer.next(), Some(TokenKind::Ident));
    assert_eq!(lexer.next(), Some(TokenKind::Ident));
    assert_eq!(lexer.next(), Some(TokenKind::Ident));
    assert_eq!(lexer.next(), None);
}

#[test]
fn test_line_comment() {
    let mut lexer = TokenKind::lexer("# this is a comment\nhello_world");
    assert_eq!(lexer.next(), Some(TokenKind::LineComment));
    assert_eq!(lexer.next(), Some(TokenKind::Ident));
    assert_eq!(lexer.next(), None);
}

#[test]
fn test_block_comment() {
    let mut lexer = TokenKind::lexer("/*this is a comment*/");
    assert_eq!(lexer.next(), Some(TokenKind::BlockComment));
    assert_eq!(lexer.next(), None);
}

#[test]
fn test_tokens() {
    let mut lexer = TokenKind::lexer(";{}[]()+-*/%=!&|<>^~?:.@");

    assert_eq!(lexer.next(), Some(TokenKind::Semi));
    assert_eq!(lexer.next(), Some(TokenKind::OpenBrace));
    assert_eq!(lexer.next(), Some(TokenKind::CloseBrace));
    assert_eq!(lexer.next(), Some(TokenKind::OpenBracket));
    assert_eq!(lexer.next(), Some(TokenKind::CloseBracket));
    assert_eq!(lexer.next(), Some(TokenKind::OpenParen));
    assert_eq!(lexer.next(), Some(TokenKind::CloseParen));
    assert_eq!(lexer.next(), Some(TokenKind::Plus));
    assert_eq!(lexer.next(), Some(TokenKind::Minus));
    assert_eq!(lexer.next(), Some(TokenKind::Star));
    assert_eq!(lexer.next(), Some(TokenKind::Slash));
    assert_eq!(lexer.next(), Some(TokenKind::Percent));
    assert_eq!(lexer.next(), Some(TokenKind::Eq));
    assert_eq!(lexer.next(), Some(TokenKind::Not));
    assert_eq!(lexer.next(), Some(TokenKind::And));
    assert_eq!(lexer.next(), Some(TokenKind::Or));
    assert_eq!(lexer.next(), Some(TokenKind::Lt));
    assert_eq!(lexer.next(), Some(TokenKind::Gt));
    assert_eq!(lexer.next(), Some(TokenKind::Caret));
    assert_eq!(lexer.next(), Some(TokenKind::Tilde));
    assert_eq!(lexer.next(), Some(TokenKind::Question));
    assert_eq!(lexer.next(), Some(TokenKind::Colon));
    assert_eq!(lexer.next(), Some(TokenKind::Dot));
    assert_eq!(lexer.next(), Some(TokenKind::At));
    assert_eq!(lexer.next(), None);
}

#[test]
fn test_expression() {
    let mut lexer = TokenKind::lexer("hello: int = 2;");
    assert_eq!(lexer.next(), Some(TokenKind::Ident));
    assert_eq!(lexer.next(), Some(TokenKind::Colon));
    assert_eq!(lexer.next(), Some(TokenKind::Ident));
    assert_eq!(lexer.next(), Some(TokenKind::Eq));
    assert_eq!(
        lexer.next(),
        Some(TokenKind::Literal(LiteralKind::Int(Base::Decimal)))
    );
    assert_eq!(lexer.next(), Some(TokenKind::Semi));
    assert_eq!(lexer.next(), None);
}

#[test]
fn test_binary_expression() {
    let mut lexer = TokenKind::lexer("1 + 2 * 3");
    assert_eq!(
        lexer.next(),
        Some(TokenKind::Literal(LiteralKind::Int(Base::Decimal)))
    );
    assert_eq!(lexer.next(), Some(TokenKind::Plus));
    assert_eq!(
        lexer.next(),
        Some(TokenKind::Literal(LiteralKind::Int(Base::Decimal)))
    );
    assert_eq!(lexer.next(), Some(TokenKind::Star));
    assert_eq!(
        lexer.next(),
        Some(TokenKind::Literal(LiteralKind::Int(Base::Decimal)))
    );
    assert_eq!(lexer.next(), None);
}

#[test]
fn test_assignment() {
    let mut lexer = TokenKind::lexer("let x = 2;");
    assert_eq!(lexer.next(), Some(TokenKind::Ident));
    assert_eq!(lexer.next(), Some(TokenKind::Ident));
    assert_eq!(lexer.next(), Some(TokenKind::Eq));
    assert_eq!(
        lexer.next(),
        Some(TokenKind::Literal(LiteralKind::Int(Base::Decimal)))
    );
    assert_eq!(lexer.next(), Some(TokenKind::Semi));
    assert_eq!(lexer.next(), None);
}

#[test]
fn test_code() {
    let src = r#"
        fn main() {
            # assign variables
            let x = 1;
            let y = 2;
            let z = x + y;
        }"#;

    let mut lexer = TokenKind::lexer(src);

    // newline and indentation

    // fn
    assert_eq!(lexer.next(), Some(TokenKind::Ident));
    // space
    // main
    assert_eq!(lexer.next(), Some(TokenKind::Ident));
    // ()
    assert_eq!(lexer.next(), Some(TokenKind::OpenParen));
    assert_eq!(lexer.next(), Some(TokenKind::CloseParen));
    // {
    assert_eq!(lexer.next(), Some(TokenKind::OpenBrace));

    // comment
    assert_eq!(lexer.next(), Some(TokenKind::LineComment));

    // let
    assert_eq!(lexer.next(), Some(TokenKind::Ident));
    // x
    assert_eq!(lexer.next(), Some(TokenKind::Ident));
    // =
    assert_eq!(lexer.next(), Some(TokenKind::Eq));
    // 1
    assert_eq!(
        lexer.next(),
        Some(TokenKind::Literal(LiteralKind::Int(Base::Decimal)))
    );
    assert_eq!(lexer.next(), Some(TokenKind::Semi));

    // let
    assert_eq!(lexer.next(), Some(TokenKind::Ident));
    // y
    assert_eq!(lexer.next(), Some(TokenKind::Ident));
    // =
    assert_eq!(lexer.next(), Some(TokenKind::Eq));
    // 2
    assert_eq!(
        lexer.next(),
        Some(TokenKind::Literal(LiteralKind::Int(Base::Decimal)))
    );
    assert_eq!(lexer.next(), Some(TokenKind::Semi));

    // let
    assert_eq!(lexer.next(), Some(TokenKind::Ident));
    // z
    assert_eq!(lexer.next(), Some(TokenKind::Ident));
    // =
    assert_eq!(lexer.next(), Some(TokenKind::Eq));
    // x
    assert_eq!(lexer.next(), Some(TokenKind::Ident));
    // +
    assert_eq!(lexer.next(), Some(TokenKind::Plus));
    // y
    assert_eq!(lexer.next(), Some(TokenKind::Ident));
    assert_eq!(lexer.next(), Some(TokenKind::Semi));

    // } and EOF
    assert_eq!(lexer.next(), Some(TokenKind::CloseBrace));
    assert_eq!(lexer.next(), None);
}

#[test]
fn test_token_lexer() {
    let src = r#"
        fn main() {
            # assign variables
            let x = 1;
            let y = 2;
            let z = x + y;
        }"#;

    let mut lexer = TokenLexer::new(src);
    let tokens: Vec<TokenKind> = lexer
        .parse()
        .unwrap()
        .into_iter()
        .map(|t| t.kind)
        .collect();

    // Comments and whitespace are recognized but omitted from the
    // emitted sequence.
    assert_eq!(
        tokens,
        vec![
            TokenKind::Ident,
            TokenKind::Ident,
            TokenKind::OpenParen,
            TokenKind::CloseParen,
            TokenKind::OpenBrace,
            TokenKind::Ident,
            TokenKind::Ident,
            TokenKind::Eq,
            TokenKind::Literal(LiteralKind::Int(Base::Decimal)),
            TokenKind::Semi,
            TokenKind::Ident,
            TokenKind::Ident,
            TokenKind::Eq,
            TokenKind::Literal(LiteralKind::Int(Base::Decimal)),
            TokenKind::Semi,
            TokenKind::Ident,
            TokenKind::Ident,
            TokenKind::Eq,
            TokenKind::Ident,
            TokenKind::Plus,
            TokenKind::Ident,
            TokenKind::Semi,
            TokenKind::CloseBrace
        ]
    )
}

#[test]
fn test_token_lexer_error() {
    let src = "let hello_world = ℵ";
    let mut lexer = TokenLexer::new(src);
    let res = lexer.parse();

    assert!(res.is_err());
    assert_eq!(
        res.unwrap_err(),
        LexerError {
            index: 18,
            line: 0,
            col: 0,
            slice: "ℵ".as_bytes().to_vec(),
        }
    )
}

#[test]
fn token_offsets_and_slices() {
    let mut lexer = TokenLexer::new("hello: int = 2;");
    let tokens: Vec<Token> = lexer.parse().unwrap();
    assert_eq!(tokens.len(), 6);
    assert_eq!(tokens[0].index, 0);
    assert_eq!(tokens[0].len, 5);
    assert_eq!(tokens[0].slice, b"hello".to_vec());
    assert_eq!(tokens[4].index, 13);
    assert_eq!(tokens[4].len, 1);
    assert_eq!(tokens[4].slice, b"2".to_vec());
    assert_eq!(tokens[5].index, 14);
    assert_eq!(tokens[5].slice, b";".to_vec());
}

#[test]
fn base_resolution() {
    assert_eq!(Base::parse("1234"), Base::Decimal);
    assert_eq!(Base::parse("-98765"), Base::Decimal);
    assert_eq!(Base::parse("0x1234"), Base::Hexadecimal);
    assert_eq!(Base::parse("0o1234"), Base::Octal);
    assert_eq!(Base::parse("0b10100"), Base::Binary);
    assert_eq!(Base::parse("-0x1f"), Base::Hexadecimal);
    assert_eq!(Base::parse("12.34e-5"), Base::Decimal);
}

#[test]
fn literal_kind_parse() {
    assert_eq!(LiteralKind::parse(""), None);
    assert_eq!(
        LiteralKind::parse("1234"),
        Some(LiteralKind::Int(Base::Decimal))
    );
    assert_eq!(
        LiteralKind::parse("0x1f"),
        Some(LiteralKind::Int(Base::Hexadecimal))
    );
    assert_eq!(LiteralKind::parse("\"foo\""), Some(LiteralKind::String));
    assert_eq!(LiteralKind::parse("~"), Some(LiteralKind::Error));
}

#[test]
fn error_kind_for_unmatched_input() {
    let mut lexer = TokenKind::lexer("let hello_world = ℵ");
    assert_eq!(lexer.next(), Some(TokenKind::Ident));
    assert_eq!(lexer.next(), Some(TokenKind::Ident));
    assert_eq!(lexer.next(), Some(TokenKind::Eq));
    assert_eq!(lexer.next(), Some(TokenKind::Error));
    assert_eq!(lexer.next(), None);
}

#[test]
fn empty_source_has_no_tokens() {
    let mut lexer = TokenLexer::new("");
    assert_eq!(lexer.parse().unwrap(), vec![]);
    let mut lexer = TokenLexer::new("   \n\t  ");
    assert_eq!(lexer.parse().unwrap(), vec![]);
}

#[test]
fn signed_literals_keep_their_sign() {
    let mut lexer = TokenLexer::new("-5 +17");
    let tokens = lexer.parse().unwrap();
    assert_eq!(tokens.len(), 2);
    assert_eq!(tokens[0].kind, TokenKind::Literal(LiteralKind::Int(Base::Decimal)));
    assert_eq!(tokens[0].slice, b"-5".to_vec());
    assert_eq!(tokens[1].slice, b"+17".to_vec());
}
