use boron::token::{Token, TokenType};
use boron::tokenizer::{CharStream, Tokenizer};

fn lexemes(source: &str) -> Vec<(String, TokenType)> {
    Tokenizer::new(source.to_string()).collect().iter().map(|t| (t.get_value(), t.get_type())).collect()
}

fn kinds(source: &str) -> Vec<TokenType> {
    lexemes(source).into_iter().map(|(_, kind)| kind).collect()
}

fn pair(text: &str, kind: TokenType) -> (String, TokenType) {
    (text.to_string(), kind)
}

#[test]
fn empty_source_has_no_tokens() {
    assert_eq!(lexemes(""), vec![]);
    assert_eq!(lexemes("  \n , "), vec![]);
}

#[test]
fn single_characters() {
    assert_eq!(
        kinds("( ) { } : + - * / ! > < = ? | '"),
        vec![
            TokenType::OpenParen,
            TokenType::CloseParen,
            TokenType::OpenBrace,
            TokenType::CloseBrace,
            TokenType::Assignment,
            TokenType::Plus,
            TokenType::Minus,
            TokenType::Multiply,
            TokenType::Divide,
            TokenType::Not,
            TokenType::Greater,
            TokenType::Less,
            TokenType::Equal,
            TokenType::TernaryIf,
            TokenType::TernaryElse,
            TokenType::SingleQuote,
        ]
    );
}

#[test]
fn double_characters() {
    assert_eq!(
        lexemes(":: -> >= <="),
        vec![
            pair("::", TokenType::FnDeclaration),
            pair("->", TokenType::FnReturnType),
            pair(">=", TokenType::GreaterEqual),
            pair("<=", TokenType::LessEqual),
        ]
    );
}

#[test]
fn keywords_and_names() {
    assert_eq!(
        lexemes("int flt bln chr nul true false let whl if else struct return use while x p.x"),
        vec![
            pair("int", TokenType::Type),
            pair("flt", TokenType::Type),
            pair("bln", TokenType::Type),
            pair("chr", TokenType::Type),
            pair("nul", TokenType::Type),
            pair("true", TokenType::Bool),
            pair("false", TokenType::Bool),
            pair("let", TokenType::Let),
            pair("whl", TokenType::While),
            pair("if", TokenType::If),
            pair("else", TokenType::Else),
            pair("struct", TokenType::Struct),
            pair("return", TokenType::Return),
            pair("use", TokenType::Use),
            pair("while", TokenType::Identifier),
            pair("x", TokenType::Identifier),
            pair("p.x", TokenType::Identifier),
        ]
    );
}

#[test]
fn numbers() {
    assert_eq!(
        lexemes("0 42 007 2147483647 2147483648 3.14 1. 1e5 2.5E-3 1.e+2 12ab 1.2.3 1e"),
        vec![
            pair("0", TokenType::Int),
            pair("42", TokenType::Int),
            pair("007", TokenType::Int),
            pair("2147483647", TokenType::Int),
            pair("2147483648", TokenType::Float),
            pair("3.14", TokenType::Float),
            pair("1.", TokenType::Float),
            pair("1e5", TokenType::Float),
            pair("2.5E-3", TokenType::Float),
            pair("1.e+2", TokenType::Float),
            pair("12ab", TokenType::Unknown),
            pair("1.2.3", TokenType::Unknown),
            pair("1e", TokenType::Unknown),
        ]
    );
}

#[test]
fn words_end_at_separators() {
    assert_eq!(
        lexemes("f(x,y):1"),
        vec![
            pair("f", TokenType::Identifier),
            pair("(", TokenType::OpenParen),
            pair("x", TokenType::Identifier),
            pair("y", TokenType::Identifier),
            pair(")", TokenType::CloseParen),
            pair(":", TokenType::Assignment),
            pair("1", TokenType::Int),
        ]
    );
    assert_eq!(lexemes("x}"), vec![pair("x}", TokenType::Identifier)]);
}

#[test]
fn character_literal() {
    assert_eq!(
        lexemes("'a'"),
        vec![pair("'", TokenType::SingleQuote), pair("a", TokenType::Identifier), pair("'", TokenType::SingleQuote)]
    );
}

#[test]
fn references() {
    assert_eq!(lexemes("&x &p.y"), vec![pair("&x", TokenType::Ref), pair("&p.y", TokenType::Ref)]);
}

#[test]
fn comments_are_dropped() {
    assert_eq!(lexemes("x # a comment : ( \n y"), vec![pair("x", TokenType::Identifier), pair("y", TokenType::Identifier)]);
    assert_eq!(lexemes("x # the text ends in a comment"), vec![pair("x", TokenType::Identifier)]);
    assert_eq!(lexemes("# only a comment"), vec![]);
}

#[test]
fn nul_ends_the_text() {
    assert_eq!(lexemes("a \0 b"), vec![pair("a", TokenType::Identifier)]);
}

#[test]
fn unknown_characters() {
    assert_eq!(lexemes("$ ;"), vec![pair("$", TokenType::Unknown), pair(";", TokenType::Unknown)]);
}

#[test]
fn letters_run_from_upper_a_to_lower_z() {
    assert_eq!(lexemes("_x [y Zed"), vec![pair("_x", TokenType::Identifier), pair("[y", TokenType::Identifier), pair("Zed", TokenType::Identifier)]);
}

#[test]
fn char_stream_reads_in_order() {
    let mut stream = CharStream::new("ab".to_string());
    assert_eq!(stream.peek(), Some('a'));
    assert_eq!(stream.peek(), Some('a'));
    assert_eq!(stream.next(), Some('a'));
    assert_eq!(stream.next(), Some('b'));
    assert_eq!(stream.peek(), None);
    assert_eq!(stream.next(), None);
    assert_eq!(stream.next(), None);
}

#[test]
fn char_stream_skips_whitespace_and_yields_tokens() {
    let mut stream = CharStream::new("  # note\n  let x".to_string());
    Tokenizer::skip_whitespace(&mut stream);
    assert_eq!(stream.peek(), Some('l'));
    assert_eq!(Tokenizer::next_token(&mut stream), Some(Token::new("let".to_string(), TokenType::Let)));
    assert_eq!(Tokenizer::next_token(&mut stream), Some(Token::new("x".to_string(), TokenType::Identifier)));
    assert_eq!(Tokenizer::next_token(&mut stream), None);
}

#[test]
fn token_source_next_peek_and_look_ahead() {
    let mut tokenizer = Tokenizer::new("a b c".to_string());
    assert_eq!(tokenizer.peek().map(|t| t.get_value()), Some("a".to_string()));
    assert_eq!(tokenizer.look_ahead(0).map(|t| t.get_value()), Some("a".to_string()));
    assert_eq!(tokenizer.look_ahead(1).map(|t| t.get_value()), Some("b".to_string()));
    assert_eq!(tokenizer.look_ahead(2).map(|t| t.get_value()), Some("c".to_string()));
    assert_eq!(tokenizer.look_ahead(3), None);
    assert_eq!(tokenizer.look_ahead(usize::MAX), None);
    assert_eq!(tokenizer.next().map(|t| t.get_value()), Some("a".to_string()));
    assert_eq!(tokenizer.next().map(|t| t.get_value()), Some("b".to_string()));
    assert_eq!(tokenizer.look_ahead(1), None);
    assert_eq!(tokenizer.next().map(|t| t.get_value()), Some("c".to_string()));
    assert_eq!(tokenizer.next(), None);
    assert_eq!(tokenizer.peek(), None);
    assert_eq!(tokenizer.next(), None);
    assert_eq!(tokenizer.collect().len(), 3);
}

#[test]
fn token_source_from_tokens() {
    let tokens = vec![Token::new("x".to_string(), TokenType::Identifier)];
    let mut tokenizer = Tokenizer::from_tokens(tokens.clone());
    assert_eq!(tokenizer.collect(), tokens);
    assert_eq!(tokenizer.next(), Some(tokens[0].clone()));
    assert_eq!(tokenizer.next(), None);
}

#[test]
fn token_accessors() {
    let token = Token::new("whl".to_string(), TokenType::While);
    assert!(token.check(TokenType::While));
    assert!(!token.check(TokenType::If));
    assert_eq!(token.get_value(), "whl");
    assert_eq!(token.get_type(), TokenType::While);
    assert_eq!(token.duplicate(), token);
}

#[test]
fn precedences() {
    let table = [
        (TokenType::Assignment, 1u8),
        (TokenType::FnDeclaration, 1),
        (TokenType::While, 1),
        (TokenType::TernaryIf, 2),
        (TokenType::TernaryElse, 2),
        (TokenType::Plus, 3),
        (TokenType::Minus, 3),
        (TokenType::Multiply, 4),
        (TokenType::Divide, 4),
        (TokenType::OpenParen, 5),
        (TokenType::Equal, 7),
        (TokenType::Greater, 7),
        (TokenType::GreaterEqual, 7),
        (TokenType::Less, 7),
        (TokenType::LessEqual, 7),
        (TokenType::Identifier, 0),
        (TokenType::If, 0),
        (TokenType::CloseParen, 0),
        (TokenType::Not, 0),
    ];
    for (kind, expected) in table {
        assert_eq!(kind.precedence(), expected);
        assert_eq!(u8::from(kind), expected);
    }
}
