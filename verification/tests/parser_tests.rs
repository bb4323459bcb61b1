use boron::error::Error;
use boron::expression::Expression;
use boron::infix::{
    BinOpParselet, DeclarationParselet, FnDeclarationParselet, InfixParselet, OpenParenParselet, ReassignmentParselet, TernaryParselet,
};
use boron::parser::{infix_rule_of, prefix_rule_of, put_field, put_pair, Parser};
use boron::grammar::{InfixRule, PrefixRule};
use boron::prefix::{
    AssignmentParselet, DatatypeParselet, IdentifierParselet, IfElseParselet, LiteralParselet, ParenParselet, PrefixParselet,
    ReturnParselet, StructInitParselet, StructParselet, UnaryOpParselet, UseParselet, WhileParselet,
};
use boron::token::{Token, TokenType};
use boron::tokenizer::Tokenizer;

fn parse_result(source: &str) -> Result<Vec<Expression>, Error> {
    let mut tokenizer = Tokenizer::new(source.to_string());
    Parser::new().parse_all(&mut tokenizer)
}

fn parse_source(source: &str) -> Vec<Expression> {
    parse_result(source).expect("the source parses")
}

fn parse_one(source: &str) -> Expression {
    let mut parsed = parse_source(source);
    assert_eq!(parsed.len(), 1);
    parsed.remove(0)
}

fn parse_error(source: &str) -> Error {
    parse_result(source).expect_err("the source does not parse")
}

fn name(text: &str) -> Box<Expression> {
    Box::new(Expression::Identifier(text.to_string()))
}

fn binary(left: Box<Expression>, op: TokenType, right: Box<Expression>) -> Box<Expression> {
    Box::new(Expression::BinOp { left, op, right })
}

fn number(value: i32) -> Box<Expression> {
    Box::new(Expression::Int(value))
}

fn text(s: &str) -> String {
    s.to_string()
}

#[test]
fn multiplication_binds_tighter_on_the_right() {
    assert_eq!(parse_one("a + b * c"), *binary(name("a"), TokenType::Plus, binary(name("b"), TokenType::Multiply, name("c"))));
}

#[test]
fn multiplication_binds_tighter_on_the_left() {
    assert_eq!(parse_one("a * b + c"), *binary(binary(name("a"), TokenType::Multiply, name("b")), TokenType::Plus, name("c")));
}

#[test]
fn operators_of_one_precedence_group_from_the_left() {
    assert_eq!(parse_one("a - b - c"), *binary(binary(name("a"), TokenType::Minus, name("b")), TokenType::Minus, name("c")));
    assert_eq!(parse_one("a / b * c"), *binary(binary(name("a"), TokenType::Divide, name("b")), TokenType::Multiply, name("c")));
}

#[test]
fn comparison_binds_tighter_than_arithmetic() {
    assert_eq!(parse_one("a + b > c"), *binary(name("a"), TokenType::Plus, binary(name("b"), TokenType::Greater, name("c"))));
}

#[test]
fn every_binary_operator() {
    for (symbol, kind) in [
        ("+", TokenType::Plus),
        ("-", TokenType::Minus),
        ("*", TokenType::Multiply),
        ("/", TokenType::Divide),
        (">", TokenType::Greater),
        ("<", TokenType::Less),
        ("=", TokenType::Equal),
        (">=", TokenType::GreaterEqual),
        ("<=", TokenType::LessEqual),
    ] {
        assert_eq!(parse_one(&format!("a {} b", symbol)), *binary(name("a"), kind, name("b")));
    }
}

#[test]
fn missing_right_operand() {
    assert_eq!(parse_error("a +"), Error::CouldNotParse(text("+")));
}

#[test]
fn invalid_operator() {
    let mut tokenizer = Tokenizer::new(text("x"));
    let result = BinOpParselet {}.parse(&Parser::new(), &mut tokenizer, Expression::Identifier(text("a")), Token::new(text("!"), TokenType::Not));
    assert_eq!(result, Err(Error::InvalidOperator(text("!"))));
    assert_eq!(tokenizer.peek(), None);
}

#[test]
fn empty_program() {
    assert_eq!(parse_source(""), vec![]);
    let mut tokenizer = Tokenizer::new(text(""));
    assert_eq!(Parser::new().parse(0, &mut tokenizer), Ok(None));
}

#[test]
fn parse_stops_where_the_next_token_binds_no_tighter() {
    let mut tokenizer = Tokenizer::new(text("a + b * c"));
    let parser = Parser::new();
    assert_eq!(parser.parse(3, &mut tokenizer), Ok(Some(Expression::Identifier(text("a")))));
    assert_eq!(tokenizer.peek().map(|t| t.get_value()), Some(text("+")));
    assert_eq!(parser.get_precedence(&tokenizer), 3);
    let mut tokenizer = Tokenizer::new(text("a * b + c"));
    assert_eq!(parser.parse(3, &mut tokenizer), Ok(Some(*binary(name("a"), TokenType::Multiply, name("b")))));
    assert_eq!(tokenizer.peek().map(|t| t.get_value()), Some(text("+")));
}

#[test]
fn precedence_of_the_end_is_zero() {
    let tokenizer = Tokenizer::new(text(""));
    assert_eq!(Parser::new().get_precedence(&tokenizer), 0);
}

#[test]
fn several_statements() {
    assert_eq!(parse_source("x y 5"), vec![*name("x"), *name("y"), *number(5)]);
}

#[test]
fn token_without_prefix_rule() {
    assert_eq!(parse_error("$"), Error::CouldNotParse(text("$")));
    assert_eq!(parse_error("x )"), Error::CouldNotParse(text(")")));
    assert_eq!(parse_error("else"), Error::CouldNotParse(text("else")));
}

#[test]
fn rule_tables() {
    assert_eq!(prefix_rule_of(TokenType::Type), Some(PrefixRule::Datatype));
    assert_eq!(prefix_rule_of(TokenType::Identifier), Some(PrefixRule::Identifier));
    assert_eq!(prefix_rule_of(TokenType::Ref), Some(PrefixRule::Identifier));
    assert_eq!(prefix_rule_of(TokenType::Let), Some(PrefixRule::Assignment));
    assert_eq!(prefix_rule_of(TokenType::SingleQuote), Some(PrefixRule::Literal));
    assert_eq!(prefix_rule_of(TokenType::OpenParen), Some(PrefixRule::Paren));
    assert_eq!(prefix_rule_of(TokenType::Not), Some(PrefixRule::UnaryOp));
    assert_eq!(prefix_rule_of(TokenType::Plus), None);
    assert_eq!(prefix_rule_of(TokenType::OpenBrace), None);
    assert_eq!(infix_rule_of(TokenType::Assignment), Some(InfixRule::Reassignment));
    assert_eq!(infix_rule_of(TokenType::OpenParen), Some(InfixRule::Call));
    assert_eq!(infix_rule_of(TokenType::LessEqual), Some(InfixRule::BinOp));
    assert_eq!(infix_rule_of(TokenType::TernaryIf), Some(InfixRule::Ternary));
    assert_eq!(infix_rule_of(TokenType::FnDeclaration), Some(InfixRule::FnDeclaration));
    assert_eq!(infix_rule_of(TokenType::TernaryElse), None);
    assert_eq!(infix_rule_of(TokenType::Not), None);
}

#[test]
fn declaration() {
    assert_eq!(parse_one("int x"), Expression::Declaration { datatype: text("int"), identifier: text("x") });
}

#[test]
fn declaration_without_a_name() {
    assert_eq!(parse_error("int"), Error::ExpectedIdentifier(text("int")));
    assert_eq!(parse_error("int 5"), Error::ExpectedIdentifier(text("5")));
}

#[test]
fn datatype_rule_wants_a_type_keyword() {
    let mut tokenizer = Tokenizer::new(text("x"));
    let result = DatatypeParselet {}.parse(&Parser::new(), &mut tokenizer, Token::new(text("y"), TokenType::Identifier));
    assert_eq!(result, Err(Error::ExpectedDatatypeKeyword(text("y"))));
}

#[test]
fn declaration_as_infix_rule() {
    let mut tokenizer = Tokenizer::new(text(""));
    let parser = Parser::new();
    let rule = DeclarationParselet {};
    assert_eq!(
        rule.parse(&parser, &mut tokenizer, Expression::Type(text("int")), Token::new(text("x"), TokenType::Identifier)),
        Ok(Expression::Declaration { datatype: text("int"), identifier: text("x") })
    );
    assert_eq!(
        rule.parse(&parser, &mut tokenizer, Expression::Type(text("int")), Token::new(text("5"), TokenType::Int)),
        Err(Error::ExpectedIdentifier(text("5")))
    );
    assert_eq!(
        rule.parse(&parser, &mut tokenizer, Expression::Int(1), Token::new(text("x"), TokenType::Identifier)),
        Err(Error::ExpectedDatatypeKeyword(text("x")))
    );
}

#[test]
fn assignment_after_declaration() {
    assert_eq!(parse_one("int x: 5"), Expression::Assignment { datatype: text("int"), identifier: text("x"), value: number(5) });
    assert_eq!(
        parse_one("int x: a + 1"),
        Expression::Assignment { datatype: text("int"), identifier: text("x"), value: binary(name("a"), TokenType::Plus, number(1)) }
    );
}

#[test]
fn reassignment_after_name() {
    assert_eq!(parse_one("x: 5"), Expression::Reassignment { identifier: text("x"), value: number(5) });
}

#[test]
fn assignment_operator_after_something_else() {
    assert_eq!(parse_error("5: 1"), Error::ExpectedIdentifier(text(":")));
    assert_eq!(parse_error("x:"), Error::CouldNotParse(text("x")));
    assert_eq!(parse_error("int x:"), Error::CouldNotParse(text("x")));
}

#[test]
fn let_assignment() {
    assert_eq!(parse_one("let int x: 5"), Expression::Assignment { datatype: text("int"), identifier: text("x"), value: number(5) });
    assert_eq!(
        parse_one("let Point p: q"),
        Expression::Assignment { datatype: text("Point"), identifier: text("p"), value: name("q") }
    );
}

#[test]
fn let_assignment_of_a_struct_instance() {
    assert_eq!(
        parse_one("let Point p: Point q: { x 1 y 2 }"),
        Expression::Assignment {
            datatype: text("Point"),
            identifier: text("p"),
            value: Box::new(Expression::StructInit {
                identifier: text("Point"),
                name: text("q"),
                variables: vec![(text("x"), Expression::Int(1)), (text("y"), Expression::Int(2))],
            }),
        }
    );
}

#[test]
fn let_assignment_errors() {
    assert_eq!(parse_error("let"), Error::UnexpectedEof(text("let")));
    assert_eq!(parse_error("let 5"), Error::ExpectedDatatypeKeyword(text("5")));
    assert_eq!(parse_error("let int"), Error::UnexpectedEof(text("let")));
    assert_eq!(parse_error("let int 5"), Error::ExpectedIdentifier(text("5")));
    assert_eq!(parse_error("let int x"), Error::UnexpectedEof(text("let")));
    assert_eq!(parse_error("let int x 5"), Error::ExpectedAssignment(text("5")));
    assert_eq!(parse_error("let int x:"), Error::CouldNotParse(text("x")));
}

#[test]
fn literals() {
    assert_eq!(parse_one("5"), Expression::Int(5));
    assert_eq!(parse_one("007"), Expression::Int(7));
    assert_eq!(parse_one("2147483647"), Expression::Int(i32::MAX));
    assert_eq!(parse_one("3.14"), Expression::Float(text("3.14")));
    assert_eq!(parse_one("2147483648"), Expression::Float(text("2147483648")));
    assert_eq!(parse_one("true"), Expression::Bool(true));
    assert_eq!(parse_one("false"), Expression::Bool(false));
    assert_eq!(parse_one("'a'"), Expression::Char('a'));
    assert_eq!(parse_one("' 7 '"), Expression::Char('7'));
}

#[test]
fn literal_errors() {
    assert_eq!(parse_error("'"), Error::UnexpectedEof(text("'")));
    assert_eq!(parse_error("'a"), Error::UnexpectedEof(text("'")));
    assert_eq!(parse_error("'ab'"), Error::ExpectedLiteral(text("ab")));
    assert_eq!(parse_error("'a b"), Error::ExpectedSingleQuote(text("b")));
}

fn literal_of(token: Token) -> Result<Option<Expression>, Error> {
    let mut tokenizer = Tokenizer::from_tokens(vec![token]);
    Parser::new().parse(0, &mut tokenizer)
}

#[test]
fn literal_tokens_with_other_text() {
    assert_eq!(literal_of(Token::new(text("-5"), TokenType::Int)), Ok(Some(Expression::Int(-5))));
    assert_eq!(literal_of(Token::new(text("+5"), TokenType::Int)), Ok(Some(Expression::Int(5))));
    assert_eq!(literal_of(Token::new(text("-2147483648"), TokenType::Int)), Ok(Some(Expression::Int(i32::MIN))));
    assert_eq!(literal_of(Token::new(text("2147483648"), TokenType::Int)), Err(Error::ExpectedLiteral(text("2147483648"))));
    assert_eq!(literal_of(Token::new(text("-2147483649"), TokenType::Int)), Err(Error::ExpectedLiteral(text("-2147483649"))));
    assert_eq!(literal_of(Token::new(text("12a"), TokenType::Int)), Err(Error::ExpectedLiteral(text("12a"))));
    assert_eq!(literal_of(Token::new(text(""), TokenType::Int)), Err(Error::ExpectedLiteral(text(""))));
    assert_eq!(literal_of(Token::new(text("-"), TokenType::Int)), Err(Error::ExpectedLiteral(text("-"))));
    assert_eq!(literal_of(Token::new(text(".5"), TokenType::Float)), Ok(Some(Expression::Float(text(".5")))));
    assert_eq!(literal_of(Token::new(text("."), TokenType::Float)), Err(Error::ExpectedLiteral(text("."))));
    assert_eq!(literal_of(Token::new(text("abc"), TokenType::Float)), Err(Error::ExpectedLiteral(text("abc"))));
    assert_eq!(literal_of(Token::new(text("maybe"), TokenType::Bool)), Err(Error::ExpectedBoolean(text("maybe"))));
}

#[test]
fn character_must_be_one_ascii_character() {
    let quote = Token::new(text("'"), TokenType::SingleQuote);
    let mut tokenizer = Tokenizer::from_tokens(vec![quote.clone(), Token::new(text("\u{e9}"), TokenType::Identifier), quote.clone()]);
    assert_eq!(Parser::new().parse(0, &mut tokenizer), Err(Error::ExpectedLiteral(text("\u{e9}"))));
    let mut tokenizer = Tokenizer::from_tokens(vec![quote.clone(), Token::new(text(""), TokenType::Identifier), quote]);
    assert_eq!(Parser::new().parse(0, &mut tokenizer), Err(Error::ExpectedLiteral(text(""))));
}

#[test]
fn group() {
    assert_eq!(parse_one("(a)"), *name("a"));
    assert_eq!(parse_one("(a > b)"), *binary(name("a"), TokenType::Greater, name("b")));
    assert_eq!(parse_one("(a > b) + c"), *binary(binary(name("a"), TokenType::Greater, name("b")), TokenType::Plus, name("c")));
    assert_eq!(parse_one("(a + b)"), *binary(name("a"), TokenType::Plus, name("b")));
    assert_eq!(parse_one("(a + b) * c"), *binary(binary(name("a"), TokenType::Plus, name("b")), TokenType::Multiply, name("c")));
    assert_eq!(parse_one("a * (b + c)"), *binary(name("a"), TokenType::Multiply, binary(name("b"), TokenType::Plus, name("c"))));
    assert_eq!(parse_one("((a))"), *name("a"));
    assert_eq!(
        parse_one("(a + b * c - d)"),
        *binary(binary(name("a"), TokenType::Plus, binary(name("b"), TokenType::Multiply, name("c"))), TokenType::Minus, name("d"))
    );
    assert_eq!(
        parse_one("(c ? x | y)"),
        Expression::TernaryIfElse { condition: name("c"), body_true: name("x"), body_false: name("y") }
    );
}

#[test]
fn group_errors() {
    assert_eq!(parse_error("("), Error::CouldNotParse(text("(")));
    assert_eq!(parse_error("(a"), Error::UnexpectedEof(text("(")));
    assert_eq!(parse_error("(a b"), Error::ExpectedCloseParen(text("b")));
    assert_eq!(parse_error("(a + b"), Error::UnexpectedEof(text("(")));
    assert_eq!(parse_error("(a +)"), Error::CouldNotParse(text(")")));
    assert_eq!(parse_error("()"), Error::CouldNotParse(text(")")));
}

#[test]
fn unary_operators() {
    assert_eq!(parse_one("-x"), Expression::UnaryOp { op: TokenType::Minus, expr: name("x") });
    assert_eq!(parse_one("!x"), Expression::UnaryOp { op: TokenType::Not, expr: name("x") });
    assert_eq!(
        parse_one("-a * b"),
        Expression::UnaryOp { op: TokenType::Minus, expr: binary(name("a"), TokenType::Multiply, name("b")) }
    );
    assert_eq!(
        parse_one("-a + b"),
        *binary(Box::new(Expression::UnaryOp { op: TokenType::Minus, expr: name("a") }), TokenType::Plus, name("b"))
    );
    assert_eq!(parse_error("-"), Error::CouldNotParse(text("-")));
}

#[test]
fn while_loop() {
    assert_eq!(
        parse_one("whl x < 5 { x: x + 1 }"),
        Expression::While {
            condition: binary(name("x"), TokenType::Less, number(5)),
            body: vec![Expression::Reassignment { identifier: text("x"), value: binary(name("x"), TokenType::Plus, number(1)) }],
        }
    );
    assert_eq!(parse_one("whl true { }"), Expression::While { condition: Box::new(Expression::Bool(true)), body: vec![] });
}

#[test]
fn while_loop_errors() {
    assert_eq!(parse_error("whl"), Error::CouldNotParse(text("whl")));
    assert_eq!(parse_error("whl x"), Error::UnexpectedEof(text("whl")));
    assert_eq!(parse_error("whl x y"), Error::ExpectedOpenBrace(text("y")));
    assert_eq!(parse_error("whl x { y"), Error::UnexpectedEof(text("whl")));
    assert_eq!(parse_error("whl x { )"), Error::CouldNotParse(text(")")));
}

#[test]
fn conditional() {
    assert_eq!(
        parse_one("if x > 1 { y: 1 }"),
        Expression::If {
            condition: binary(name("x"), TokenType::Greater, number(1)),
            body: vec![Expression::Reassignment { identifier: text("y"), value: number(1) }],
        }
    );
    assert_eq!(
        parse_source("if x { } y"),
        vec![Expression::If { condition: name("x"), body: vec![] }, *name("y")]
    );
}

#[test]
fn conditional_with_alternative() {
    assert_eq!(
        parse_one("if x { y: 1 } else { y: 2 z }"),
        Expression::IfElse {
            condition: name("x"),
            body_true: vec![Expression::Reassignment { identifier: text("y"), value: number(1) }],
            body_false: vec![Expression::Reassignment { identifier: text("y"), value: number(2) }, *name("z")],
        }
    );
}

#[test]
fn conditional_errors() {
    assert_eq!(parse_error("if"), Error::CouldNotParse(text("if")));
    assert_eq!(parse_error("if x"), Error::UnexpectedEof(text("if")));
    assert_eq!(parse_error("if x y"), Error::ExpectedOpenBrace(text("y")));
    assert_eq!(parse_error("if x { y"), Error::UnexpectedEof(text("if")));
    assert_eq!(parse_error("if x { } else"), Error::UnexpectedEof(text("else")));
    assert_eq!(parse_error("if x { } else y"), Error::ExpectedOpenBrace(text("y")));
    assert_eq!(parse_error("if x { } else { y"), Error::UnexpectedEof(text("else")));
}

#[test]
fn struct_definition() {
    assert_eq!(
        parse_one("struct Point { int x int y }"),
        Expression::Struct { identifier: text("Point"), variables: vec![(text("x"), text("int")), (text("y"), text("int"))] }
    );
    assert_eq!(parse_one("struct Empty { }"), Expression::Struct { identifier: text("Empty"), variables: vec![] });
}

#[test]
fn struct_definition_binds_each_field_once() {
    assert_eq!(
        parse_one("struct P { int x int y flt x }"),
        Expression::Struct { identifier: text("P"), variables: vec![(text("x"), text("flt")), (text("y"), text("int"))] }
    );
}

#[test]
fn struct_instance_after_keyword() {
    assert_eq!(
        parse_one("struct Point q { x 1 y a + 2 }"),
        Expression::StructInit {
            identifier: text("Point"),
            name: text("q"),
            variables: vec![(text("x"), Expression::Int(1)), (text("y"), *binary(name("a"), TokenType::Plus, number(2)))],
        }
    );
}

#[test]
fn struct_instance_after_name() {
    assert_eq!(
        parse_one("Point p: { x 1 y 2 x 3 }"),
        Expression::StructInit {
            identifier: text("Point"),
            name: text("p"),
            variables: vec![(text("x"), Expression::Int(3)), (text("y"), Expression::Int(2))],
        }
    );
}

#[test]
fn struct_errors() {
    assert_eq!(parse_error("struct"), Error::UnexpectedEof(text("struct")));
    assert_eq!(parse_error("struct 5"), Error::ExpectedIdentifier(text("5")));
    assert_eq!(parse_error("struct P"), Error::UnexpectedEof(text("struct")));
    assert_eq!(parse_error("struct P 5"), Error::ExpectedOpenBrace(text("5")));
    assert_eq!(parse_error("struct P { x }"), Error::CouldNotParse(text("x")));
    assert_eq!(parse_error("struct P { int x"), Error::UnexpectedEof(text("struct")));
    assert_eq!(parse_error("struct P q"), Error::UnexpectedEof(text("q")));
    assert_eq!(parse_error("struct P q 5"), Error::ExpectedOpenBrace(text("5")));
    assert_eq!(parse_error("struct P q { x"), Error::CouldNotParse(text("x")));
    assert_eq!(parse_error("struct P q { x 1"), Error::UnexpectedEof(text("struct")));
    assert_eq!(parse_error("P q: { x 1"), Error::UnexpectedEof(text("P")));
}

#[test]
fn struct_instance_without_a_name() {
    let mut tokenizer = Tokenizer::new(text("x 1 }"));
    let rule = StructInitParselet {};
    assert_eq!(
        rule.parse(&Parser::new(), &mut tokenizer, Token::new(text("{"), TokenType::OpenBrace)),
        Ok(Expression::StructInit { identifier: text(""), name: text(""), variables: vec![(text("x"), Expression::Int(1))] })
    );
    assert_eq!(
        rule.parse(&Parser::new(), &mut tokenizer, Token::new(text("("), TokenType::OpenParen)),
        Err(Error::ExpectedOpenBrace(text("(")))
    );
}

#[test]
fn names_and_references() {
    assert_eq!(parse_one("x"), Expression::Identifier(text("x")));
    assert_eq!(parse_one("p.x"), Expression::Identifier(text("p.x")));
    assert_eq!(parse_one("&x"), Expression::Reference(text("&x")));
    assert_eq!(parse_source("&x y"), vec![Expression::Reference(text("&x")), *name("y")]);
}

#[test]
fn return_statement() {
    assert_eq!(parse_one("return a + b"), Expression::Return(binary(name("a"), TokenType::Plus, name("b"))));
    assert_eq!(parse_error("return"), Error::CouldNotParse(text("return")));
}

#[test]
fn use_statement() {
    assert_eq!(parse_one("use std.io"), Expression::Use(text("std/io")));
    assert_eq!(parse_one("use local"), Expression::Use(text("local")));
    assert_eq!(parse_error("use"), Error::UnexpectedEof(text("use")));
    assert_eq!(parse_error("use 5"), Error::ExpectedIdentifier(text("5")));
}

#[test]
fn call() {
    assert_eq!(parse_one("f()"), Expression::FnCall { name: text("f"), args: vec![] });
    assert_eq!(parse_one("f(x, 1)"), Expression::FnCall { name: text("f"), args: vec![*name("x"), *number(1)] });
    assert_eq!(parse_one("p.move(1)"), Expression::FnCall { name: text("p.move"), args: vec![*number(1)] });
    assert_eq!(
        parse_one("f(a > b g(c))"),
        Expression::FnCall {
            name: text("f"),
            args: vec![*binary(name("a"), TokenType::Greater, name("b")), Expression::FnCall { name: text("g"), args: vec![*name("c")] }],
        }
    );
    assert_eq!(
        parse_one("f(a + b)"),
        Expression::FnCall { name: text("f"), args: vec![*binary(name("a"), TokenType::Plus, name("b"))] }
    );
    assert_eq!(
        parse_one("f((d), a + b * c, !e)"),
        Expression::FnCall {
            name: text("f"),
            args: vec![
                *name("d"),
                *binary(name("a"), TokenType::Plus, binary(name("b"), TokenType::Multiply, name("c"))),
                Expression::UnaryOp { op: TokenType::Not, expr: name("e") },
            ],
        }
    );
    assert_eq!(
        parse_one("f(a (b))"),
        Expression::FnCall { name: text("f"), args: vec![Expression::FnCall { name: text("a"), args: vec![*name("b")] }] }
    );
}

#[test]
fn call_errors() {
    assert_eq!(parse_error("f(x"), Error::UnexpectedEof(text("(")));
    assert_eq!(parse_error("f("), Error::UnexpectedEof(text("(")));
    assert_eq!(parse_error("5(x)"), Error::ExpectedIdentifier(text("(")));
    assert_eq!(parse_error("f(a +)"), Error::CouldNotParse(text(")")));
    assert_eq!(parse_error("f(a + b"), Error::UnexpectedEof(text("(")));
    assert_eq!(parse_error("f(+)"), Error::CouldNotParse(text("+")));
}

#[test]
fn conditional_expression() {
    assert_eq!(
        parse_one("a > b ? x | y"),
        Expression::TernaryIfElse { condition: binary(name("a"), TokenType::Greater, name("b")), body_true: name("x"), body_false: name("y") }
    );
    assert_eq!(
        parse_one("c ? x + 1 | y * 2"),
        Expression::TernaryIfElse {
            condition: name("c"),
            body_true: binary(name("x"), TokenType::Plus, number(1)),
            body_false: binary(name("y"), TokenType::Multiply, number(2)),
        }
    );
}

#[test]
fn conditional_expression_errors() {
    assert_eq!(parse_error("a ?"), Error::CouldNotParse(text("?")));
    assert_eq!(parse_error("a ? x"), Error::UnexpectedEof(text("?")));
    assert_eq!(parse_error("a ? x y"), Error::CouldNotParse(text("y")));
    assert_eq!(parse_error("a ? x |"), Error::CouldNotParse(text("?")));
}

#[test]
fn function_definition() {
    assert_eq!(
        parse_one("add :: int a int b -> int { return a + b }"),
        Expression::FnDeclaration {
            identifier: text("add"),
            arguments: vec![(text("a"), text("int")), (text("b"), text("int"))],
            return_type: text("int"),
            body: vec![Expression::Return(binary(name("a"), TokenType::Plus, name("b")))],
        }
    );
    assert_eq!(
        parse_one("main :: { }"),
        Expression::FnDeclaration { identifier: text("main"), arguments: vec![], return_type: text("nul"), body: vec![] }
    );
    assert_eq!(
        parse_one("show :: Point p { print(p.x) }"),
        Expression::FnDeclaration {
            identifier: text("show"),
            arguments: vec![(text("p"), text("Point"))],
            return_type: text("nul"),
            body: vec![Expression::FnCall { name: text("print"), args: vec![*name("p.x")] }],
        }
    );
    assert_eq!(
        parse_one("make :: -> Point { }"),
        Expression::FnDeclaration { identifier: text("make"), arguments: vec![], return_type: text("Point"), body: vec![] }
    );
}

#[test]
fn function_definition_errors() {
    assert_eq!(parse_error("5 :: { }"), Error::ExpectedIdentifier(text("before function declaration")));
    assert_eq!(parse_error("f ::"), Error::UnexpectedEof(text("::")));
    assert_eq!(parse_error("f :: 5"), Error::ExpectedIdentifier(text("5")));
    assert_eq!(parse_error("f :: int"), Error::UnexpectedEof(text("int")));
    assert_eq!(parse_error("f :: int 5"), Error::ExpectedIdentifier(text("5")));
    assert_eq!(parse_error("f :: int a"), Error::UnexpectedEof(text("::")));
    assert_eq!(parse_error("f :: ->"), Error::UnexpectedEof(text("::")));
    assert_eq!(parse_error("f :: -> 5"), Error::ExpectedDatatypeKeyword(text("5")));
    assert_eq!(parse_error("f :: -> int"), Error::UnexpectedEof(text("::")));
    assert_eq!(parse_error("f :: -> int x"), Error::ExpectedOpenBrace(text("x")));
    assert_eq!(parse_error("f :: { x"), Error::UnexpectedEof(text("::")));
}

#[test]
fn return_type_of_a_function() {
    let marker = Token::new(text("::"), TokenType::FnDeclaration);
    let mut tokenizer = Tokenizer::from_tokens(vec![Token::new(text("x"), TokenType::Identifier)]);
    assert_eq!(FnDeclarationParselet::return_type(&mut tokenizer, &marker), Err(Error::ExpectedReturnType(text("x"))));
    let mut tokenizer = Tokenizer::new(text("int a -> flt {"));
    assert_eq!(FnDeclarationParselet::arguments(&mut tokenizer), Ok(vec![(text("a"), text("int"))]));
    assert_eq!(FnDeclarationParselet::return_type(&mut tokenizer, &marker), Ok(text("flt")));
    assert_eq!(tokenizer.peek(), None);
}

#[test]
fn a_failed_parse_stops_at_the_first_error() {
    assert_eq!(parse_error("int x: 5 int"), Error::ExpectedIdentifier(text("int")));
    assert_eq!(parse_error("int 1 int 2"), Error::ExpectedIdentifier(text("1")));
}

#[test]
fn put_replaces_the_first_entry_of_the_name() {
    let mut pairs = vec![(text("a"), text("1")), (text("b"), text("2")), (text("a"), text("3"))];
    put_pair(&mut pairs, text("a"), text("9"));
    assert_eq!(pairs, vec![(text("a"), text("9")), (text("b"), text("2")), (text("a"), text("3"))]);
    put_pair(&mut pairs, text("c"), text("4"));
    assert_eq!(pairs.len(), 4);
    assert_eq!(pairs[3], (text("c"), text("4")));
    let mut fields = vec![(text("x"), Expression::Int(1))];
    put_field(&mut fields, text("x"), Expression::Int(2));
    put_field(&mut fields, text("y"), Expression::Int(3));
    assert_eq!(fields, vec![(text("x"), Expression::Int(2)), (text("y"), Expression::Int(3))]);
}

#[test]
fn whole_program() {
    let source = "use std.io\nstruct Point { int x int y }\nadd :: int a int b -> int { return a + b }\nlet int n: add(1 2)\nwhl n < 10 { n: n + 1 }\nif n = 10 { print(n) } else { print(n) }\n";
    let parsed = parse_source(source);
    assert_eq!(parsed.len(), 6);
    assert!(matches!(parsed[0], Expression::Use(_)));
    assert!(matches!(parsed[1], Expression::Struct { .. }));
    assert!(matches!(parsed[2], Expression::FnDeclaration { .. }));
    assert!(matches!(parsed[3], Expression::Assignment { .. }));
    assert!(matches!(parsed[4], Expression::While { .. }));
    assert!(matches!(parsed[5], Expression::IfElse { .. }));
}

fn lone(text_of: &str, kind: TokenType) -> Token {
    Token::new(text(text_of), kind)
}

#[test]
fn rules_refuse_tokens_of_other_kinds() {
    let parser = Parser::new();
    let mut tokenizer = Tokenizer::new(text("x y z"));
    assert_eq!(ParenParselet {}.parse(&parser, &mut tokenizer, lone("[", TokenType::Unknown)), Err(Error::ExpectedOpenParen(text("["))));
    assert_eq!(AssignmentParselet {}.parse(&parser, &mut tokenizer, lone("set", TokenType::Identifier)), Err(Error::CouldNotParse(text("set"))));
    assert_eq!(StructParselet {}.parse(&parser, &mut tokenizer, lone("record", TokenType::Identifier)), Err(Error::CouldNotParse(text("record"))));
    assert_eq!(IdentifierParselet {}.parse(&parser, &mut tokenizer, lone("5", TokenType::Int)), Err(Error::ExpectedIdentifier(text("5"))));
    assert_eq!(
        ReassignmentParselet {}.parse(&parser, &mut tokenizer, Expression::Identifier(text("a")), lone("=", TokenType::Equal)),
        Err(Error::CouldNotParse(text("=")))
    );
    assert_eq!(
        OpenParenParselet {}.parse(&parser, &mut tokenizer, Expression::Bool(true), lone("(", TokenType::OpenParen)),
        Err(Error::ExpectedIdentifier(text("(")))
    );
    assert_eq!(tokenizer.peek().map(|t| t.get_value()), Some(text("x")));
}

fn through_prefix(rule: &dyn PrefixParselet, source: &str, token: Token) -> Result<Expression, Error> {
    let mut tokenizer = Tokenizer::new(text(source));
    rule.parse(&Parser::new(), &mut tokenizer, token)
}

fn through_infix(rule: &dyn InfixParselet, source: &str, left: Expression, token: Token) -> Result<Expression, Error> {
    let mut tokenizer = Tokenizer::new(text(source));
    rule.parse(&Parser::new(), &mut tokenizer, left, token)
}

#[test]
fn rules_as_prefix_parselets() {
    assert_eq!(
        through_prefix(&DatatypeParselet {}, "x", lone("int", TokenType::Type)),
        Ok(Expression::Declaration { datatype: text("int"), identifier: text("x") })
    );
    assert_eq!(through_prefix(&IdentifierParselet {}, "", lone("x", TokenType::Identifier)), Ok(*name("x")));
    assert_eq!(
        through_prefix(&AssignmentParselet {}, "int x: 1", lone("let", TokenType::Let)),
        Ok(Expression::Assignment { datatype: text("int"), identifier: text("x"), value: number(1) })
    );
    assert_eq!(through_prefix(&LiteralParselet {}, "", lone("12", TokenType::Int)), Ok(Expression::Int(12)));
    assert_eq!(through_prefix(&ParenParselet {}, "x)", lone("(", TokenType::OpenParen)), Ok(*name("x")));
    assert_eq!(
        through_prefix(&UnaryOpParselet {}, "x", lone("!", TokenType::Not)),
        Ok(Expression::UnaryOp { op: TokenType::Not, expr: name("x") })
    );
    assert_eq!(
        through_prefix(&WhileParselet {}, "x { }", lone("whl", TokenType::While)),
        Ok(Expression::While { condition: name("x"), body: vec![] })
    );
    assert_eq!(
        through_prefix(&IfElseParselet {}, "x { }", lone("if", TokenType::If)),
        Ok(Expression::If { condition: name("x"), body: vec![] })
    );
    assert_eq!(
        through_prefix(&StructParselet {}, "P { }", lone("struct", TokenType::Struct)),
        Ok(Expression::Struct { identifier: text("P"), variables: vec![] })
    );
    assert_eq!(
        through_prefix(&StructInitParselet {}, "}", lone("{", TokenType::OpenBrace)),
        Ok(Expression::StructInit { identifier: text(""), name: text(""), variables: vec![] })
    );
    assert_eq!(through_prefix(&ReturnParselet {}, "x", lone("return", TokenType::Return)), Ok(Expression::Return(name("x"))));
    assert_eq!(through_prefix(&UseParselet {}, "a.b", lone("use", TokenType::Use)), Ok(Expression::Use(text("a/b"))));
}

#[test]
fn rules_as_infix_parselets() {
    assert_eq!(
        through_infix(&DeclarationParselet {}, "", Expression::Type(text("int")), lone("x", TokenType::Identifier)),
        Ok(Expression::Declaration { datatype: text("int"), identifier: text("x") })
    );
    assert_eq!(
        through_infix(&ReassignmentParselet {}, "1", *name("x"), lone(":", TokenType::Assignment)),
        Ok(Expression::Reassignment { identifier: text("x"), value: number(1) })
    );
    assert_eq!(
        through_infix(&OpenParenParselet {}, "1)", *name("f"), lone("(", TokenType::OpenParen)),
        Ok(Expression::FnCall { name: text("f"), args: vec![*number(1)] })
    );
    assert_eq!(through_infix(&BinOpParselet {}, "b", *name("a"), lone("+", TokenType::Plus)), Ok(*binary(name("a"), TokenType::Plus, name("b"))));
    assert_eq!(
        through_infix(&TernaryParselet {}, "x | y", *name("c"), lone("?", TokenType::TernaryIf)),
        Ok(Expression::TernaryIfElse { condition: name("c"), body_true: name("x"), body_false: name("y") })
    );
    assert_eq!(
        through_infix(&FnDeclarationParselet {}, "{ }", *name("f"), lone("::", TokenType::FnDeclaration)),
        Ok(Expression::FnDeclaration { identifier: text("f"), arguments: vec![], return_type: text("nul"), body: vec![] })
    );
}

#[test]
fn expressions_are_copied_whole() {
    let parsed = parse_source("struct P { int x }\nf :: P p -> int { if p.x > 0 { return p.x } else { whl true { g(1 -2 'c' 1.5 &p) } } }\nlet P q: P r: { x a ? 1 | 2 }\nuse m\nint z\nz: 1");
    for expression in &parsed {
        assert_eq!(&expression.duplicate(), expression);
        assert_eq!(&expression.clone(), expression);
    }
    assert_eq!(parsed.len(), 6);
}

#[test]
fn group_before_a_product() {
    let mut tokenizer = Tokenizer::new(text("a + b ) * c"));
    let result = ParenParselet {}.parse(&Parser::new(), &mut tokenizer, lone("(", TokenType::OpenParen));
    assert_eq!(result, Ok(*binary(name("a"), TokenType::Plus, name("b"))));
    assert_eq!(tokenizer.peek(), Some(lone("*", TokenType::Multiply)));
}

#[test]
fn statements_of_a_block_are_whole_expressions() {
    assert_eq!(
        parse_one("whl c { (a + b) * d }"),
        Expression::While {
            condition: name("c"),
            body: vec![*binary(binary(name("a"), TokenType::Plus, name("b")), TokenType::Multiply, name("d"))],
        }
    );
    assert_eq!(
        parse_one("whl c { -x + 1 }"),
        Expression::While {
            condition: name("c"),
            body: vec![*binary(Box::new(Expression::UnaryOp { op: TokenType::Minus, expr: name("x") }), TokenType::Plus, number(1))],
        }
    );
    assert_eq!(
        parse_one("f :: { (a) * b whl c { } y: 2 }"),
        Expression::FnDeclaration {
            identifier: text("f"),
            arguments: vec![],
            return_type: text("nul"),
            body: vec![
                *binary(name("a"), TokenType::Multiply, name("b")),
                Expression::While { condition: name("c"), body: vec![] },
                Expression::Reassignment { identifier: text("y"), value: number(2) },
            ],
        }
    );
    assert_eq!(
        parse_one("if c { -x * 2 } else { (a) + b }"),
        Expression::IfElse {
            condition: name("c"),
            body_true: vec![Expression::UnaryOp { op: TokenType::Minus, expr: binary(name("x"), TokenType::Multiply, number(2)) }],
            body_false: vec![*binary(name("a"), TokenType::Plus, name("b"))],
        }
    );
    assert_eq!(
        parse_one("struct P q { x (a + b) * c y -d }"),
        Expression::StructInit {
            identifier: text("P"),
            name: text("q"),
            variables: vec![
                (text("x"), *binary(binary(name("a"), TokenType::Plus, name("b")), TokenType::Multiply, name("c"))),
                (text("y"), Expression::UnaryOp { op: TokenType::Minus, expr: name("d") }),
            ],
        }
    );
}
