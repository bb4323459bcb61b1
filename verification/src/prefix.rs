//! The prefix rules: each starts an expression from the token that has just
//! been consumed.

use vstd::prelude::*;
use crate::decimal::{is_float_literal, parse_int};
use crate::error::{Error, ErrorView};
use crate::expression::{Expression, ExprView, exprs_view};
use crate::grammar::{
    Step, datatype_rule, guarded_block, identifier_rule, if_rule, let_rule, literal_rule, paren_rule, return_rule,
    starts_instance, struct_rule, structinit_rule, unary_rule, use_rule, while_rule,
};
use crate::parser::{Parser, advanced, yields};
use crate::paths::to_slash_path;
use crate::text::{char_at, chars_of, str_eq};
use crate::token::{Token, TokenType, TokenView};
use crate::tokenizer::Tokenizer;

verus! {

/// The rule of a type keyword: a declaration.
pub struct DatatypeParselet {}

/// The rule of a name: the name, or the instance of a struct.
pub struct IdentifierParselet {}

/// The rule of `let`: an assignment.
pub struct AssignmentParselet {}

/// The rule of a literal.
pub struct LiteralParselet {}

/// The rule of `(` where an expression starts: a group.
pub struct ParenParselet {}

/// The rule of an operator where an expression starts.
pub struct UnaryOpParselet {}

/// The rule of `whl`: a loop.
pub struct WhileParselet {}

/// The rule of `if`.
pub struct IfElseParselet {}

/// The rule of `struct`: a definition or an instance.
pub struct StructParselet {}

/// The rule of `{` where an expression starts: the fields of an instance
/// without a name. The parser has it for no kind of token.
pub struct StructInitParselet {}

/// The rule of `return`.
pub struct ReturnParselet {}

/// The rule of `use`.
pub struct UseParselet {}

impl DatatypeParselet {
    /// Parses the name after a type keyword into a declaration.
    pub fn parse(&self, _parser: &Parser, tokenizer: &mut Tokenizer, token: Token) -> (r: Result<Expression, Error>)
        ensures
            advanced(*old(tokenizer), *final(tokenizer), datatype_rule(old(tokenizer).tokens(), old(tokenizer).position(), token@).used),
            yields(r, datatype_rule(old(tokenizer).tokens(), old(tokenizer).position(), token@).out),
    {
        if !token.check(TokenType::Type) {
            return Err(Error::ExpectedDatatypeKeyword(token.get_value()));
        }
        let identifier = match tokenizer.peek() {
            Some(i) => i,
            None => {
                return Err(Error::ExpectedIdentifier(token.get_value()));
            },
        };
        if identifier.check(TokenType::Identifier) {
            tokenizer.next();
            Ok(Expression::Declaration { datatype: token.get_value(), identifier: identifier.get_value() })
        } else {
            Err(Error::ExpectedIdentifier(identifier.get_value()))
        }
    }
}

impl LiteralParselet {
    /// Parses a literal.
    pub fn parse(&self, _parser: &Parser, tokenizer: &mut Tokenizer, token: Token) -> (r: Result<Expression, Error>)
        ensures
            advanced(*old(tokenizer), *final(tokenizer), literal_rule(old(tokenizer).tokens(), old(tokenizer).position(), token@).used),
            yields(r, literal_rule(old(tokenizer).tokens(), old(tokenizer).position(), token@).out),
    {
        let value = token.get_value();
        match token.get_type() {
            TokenType::Int => match parse_int(&chars_of(value.as_str())) {
                Some(number) => { return Ok(Expression::Int(number)); },
                None => { return Err(Error::ExpectedLiteral(value)); },
            },
            TokenType::Float => {
                if is_float_literal(&chars_of(value.as_str())) {
                    return Ok(Expression::Float(value));
                } else {
                    return Err(Error::ExpectedLiteral(value));
                }
            },
            TokenType::Bool => {
                if str_eq(value.as_str(), "true") {
                    return Ok(Expression::Bool(true));
                } else if str_eq(value.as_str(), "false") {
                    return Ok(Expression::Bool(false));
                } else {
                    return Err(Error::ExpectedBoolean(value));
                }
            },
            TokenType::SingleQuote => {
                let inner = match tokenizer.next() {
                    Some(n) => n,
                    None => {
                        return Err(Error::UnexpectedEof(value));
                    },
                };
                let chars = chars_of(inner.get_value().as_str());
                if chars.len() != 1 || chars[0] > '\u{7f}' {
                    return Err(Error::ExpectedLiteral(inner.get_value()));
                }
                let chr: char = char_at(&chars, 0);
                let close = match tokenizer.peek() {
                    Some(n) => n,
                    None => {
                        return Err(Error::UnexpectedEof(value));
                    },
                };
                if close.check(TokenType::SingleQuote) {
                    tokenizer.next();
                        return Ok(Expression::Char(chr));
                } else {
                    Err(Error::ExpectedSingleQuote(close.get_value()))
                }
            },
            _ => Err(Error::ExpectedLiteral(value)),
        }
    }
}

impl UseParselet {
    /// Parses the module path after `use`.
    pub fn parse(&self, _parser: &Parser, tokenizer: &mut Tokenizer, token: Token) -> (r: Result<Expression, Error>)
        ensures
            advanced(*old(tokenizer), *final(tokenizer), use_rule(old(tokenizer).tokens(), old(tokenizer).position(), token@).used),
            yields(r, use_rule(old(tokenizer).tokens(), old(tokenizer).position(), token@).out),
    {
        let next = match tokenizer.next() {
            Some(n) => n,
            None => {
                return Err(Error::UnexpectedEof(token.get_value()));
            },
        };
        if next.check(TokenType::Identifier) {
            Ok(Expression::Use(to_slash_path(next.get_value().as_str())))
        } else {
            Err(Error::ExpectedIdentifier(next.get_value()))
        }
    }
}

impl IdentifierParselet {
    /// Parses a name, or the instance of a struct that starts with it.
    pub fn parse(&self, parser: &Parser, tokenizer: &mut Tokenizer, token: Token) -> (r: Result<Expression, Error>)
        ensures
            advanced(*old(tokenizer), *final(tokenizer), identifier_rule(old(tokenizer).tokens(), old(tokenizer).position(), token@).used),
            yields(r, identifier_rule(old(tokenizer).tokens(), old(tokenizer).position(), token@).out),
        decreases old(tokenizer).left(), 7nat,
    {
        if !(token.check(TokenType::Identifier) || token.check(TokenType::Ref)) {
            return Err(Error::ExpectedIdentifier(token.get_value()));
        }
        if Self::instance_follows(tokenizer) {
            let instance_name = match tokenizer.next() {
                Some(t) => t.get_value(),
                None => String::new(),
            };
            tokenizer.next();
            tokenizer.next();
            let variables = parser.init_fields(tokenizer, &token.get_value())?;
            Ok(Expression::StructInit { identifier: token.get_value(), name: instance_name, variables })
        } else {
            let chars = chars_of(token.get_value().as_str());
            if chars.len() > 0 && chars[0] == '&' {
                Ok(Expression::Reference(token.get_value()))
            } else {
                Ok(Expression::Identifier(token.get_value()))
            }
        }
    }

    /// Whether the next three tokens are a name, the assignment operator and `{`.
    fn instance_follows(tokenizer: &Tokenizer) -> (r: bool)
        ensures
            r == starts_instance(tokenizer.tokens(), tokenizer.position()),
    {
        let next = match tokenizer.peek() {
            Some(n) => n,
            None => {
                return false;
            },
        };
        let two = match tokenizer.look_ahead(1) {
            Some(t) => t,
            None => {
                return false;
            },
        };
        let three = match tokenizer.look_ahead(2) {
            Some(t) => t,
            None => {
                return false;
            },
        };
        next.check(TokenType::Identifier) && two.check(TokenType::Assignment) && three.check(TokenType::OpenBrace)
    }
}

impl StructInitParselet {
    /// Parses the fields of a struct instance after `{`.
    pub fn parse(&self, parser: &Parser, tokenizer: &mut Tokenizer, token: Token) -> (r: Result<Expression, Error>)
        ensures
            advanced(*old(tokenizer), *final(tokenizer), structinit_rule(old(tokenizer).tokens(), old(tokenizer).position(), token@).used),
            yields(r, structinit_rule(old(tokenizer).tokens(), old(tokenizer).position(), token@).out),
        decreases old(tokenizer).left(), 7nat,
    {
        if token.check(TokenType::OpenBrace) {
            let variables = parser.init_fields(tokenizer, &token.get_value())?;
            Ok(Expression::StructInit { identifier: String::new(), name: String::new(), variables })
        } else {
            Err(Error::ExpectedOpenBrace(token.get_value()))
        }
    }
}

impl AssignmentParselet {
    /// Parses a type, a name, the assignment operator and a value after `let`.
    pub fn parse(&self, parser: &Parser, tokenizer: &mut Tokenizer, token: Token) -> (r: Result<Expression, Error>)
        ensures
            advanced(*old(tokenizer), *final(tokenizer), let_rule(old(tokenizer).tokens(), old(tokenizer).position(), token@).used),
            yields(r, let_rule(old(tokenizer).tokens(), old(tokenizer).position(), token@).out),
        decreases old(tokenizer).left(), 7nat,
    {
        if !token.check(TokenType::Let) {
            return Err(Error::CouldNotParse(token.get_value()));
        }
        let next = match tokenizer.next() {
            Some(n) => n,
            None => {
                return Err(Error::UnexpectedEof(token.get_value()));
            },
        };
        let d = match next.get_type() {
            TokenType::Type | TokenType::Identifier => next.get_value(),
            _ => {
                return Err(Error::ExpectedDatatypeKeyword(next.get_value()));
            },
        };
        let next = match tokenizer.next() {
            Some(n) => n,
            None => {
                return Err(Error::UnexpectedEof(token.get_value()));
            },
        };
        let id = match next.get_type() {
            TokenType::Identifier => next.get_value(),
            _ => {
                return Err(Error::ExpectedIdentifier(next.get_value()));
            },
        };
        let next = match tokenizer.next() {
            Some(n) => n,
            None => {
                return Err(Error::UnexpectedEof(token.get_value()));
            },
        };
        if !next.check(TokenType::Assignment) {
            return Err(Error::ExpectedAssignment(next.get_value()));
        }
        let right_hand_side = parser.operand(next.get_type().precedence(), tokenizer, &id)?;
        Ok(Expression::Assignment { datatype: d, identifier: id, value: Box::new(right_hand_side) })
    }
}

impl ParenParselet {
    /// Parses an expression and the `)` after it; the result is the expression itself.
    pub fn parse(&self, parser: &Parser, tokenizer: &mut Tokenizer, token: Token) -> (r: Result<Expression, Error>)
        ensures
            advanced(*old(tokenizer), *final(tokenizer), paren_rule(old(tokenizer).tokens(), old(tokenizer).position(), token@).used),
            yields(r, paren_rule(old(tokenizer).tokens(), old(tokenizer).position(), token@).out),
        decreases old(tokenizer).left(), 7nat,
    {
        if !token.check(TokenType::OpenParen) {
            return Err(Error::ExpectedOpenParen(token.get_value()));
        }
        let expr = parser.operand(0, tokenizer, &token.get_value())?;
        match tokenizer.peek() {
            Some(t) => {
                if t.check(TokenType::CloseParen) {
                    tokenizer.next();
                    Ok(expr)
                } else {
                    Err(Error::ExpectedCloseParen(t.get_value()))
                }
            },
            None => Err(Error::UnexpectedEof(token.get_value())),
        }
    }
}

impl UnaryOpParselet {
    /// Parses the operand of an operator.
    pub fn parse(&self, parser: &Parser, tokenizer: &mut Tokenizer, token: Token) -> (r: Result<Expression, Error>)
        ensures
            advanced(*old(tokenizer), *final(tokenizer), unary_rule(old(tokenizer).tokens(), old(tokenizer).position(), token@).used),
            yields(r, unary_rule(old(tokenizer).tokens(), old(tokenizer).position(), token@).out),
        decreases old(tokenizer).left(), 7nat,
    {
        let expr = parser.operand(token.get_type().precedence(), tokenizer, &token.get_value())?;
        Ok(Expression::UnaryOp { op: token.get_type(), expr: Box::new(expr) })
    }
}

impl ReturnParselet {
    /// Parses the value after `return`.
    pub fn parse(&self, parser: &Parser, tokenizer: &mut Tokenizer, token: Token) -> (r: Result<Expression, Error>)
        ensures
            advanced(*old(tokenizer), *final(tokenizer), return_rule(old(tokenizer).tokens(), old(tokenizer).position(), token@).used),
            yields(r, return_rule(old(tokenizer).tokens(), old(tokenizer).position(), token@).out),
        decreases old(tokenizer).left(), 7nat,
    {
        let expr = parser.operand(token.get_type().precedence(), tokenizer, &token.get_value())?;
        Ok(Expression::Return(Box::new(expr)))
    }
}

/// Parses a condition, `{` and a block: what stands after `whl` or `if`.
pub fn parse_guarded_block(parser: &Parser, tokenizer: &mut Tokenizer, token: &Token) -> (r: Result<(Expression, Vec<Expression>), Error>)
    ensures
        advanced(*old(tokenizer), *final(tokenizer), guarded_block(old(tokenizer).tokens(), old(tokenizer).position(), token@).used),
        match r {
            Ok(parts) => guarded_block(old(tokenizer).tokens(), old(tokenizer).position(), token@).out
                == Ok::<(ExprView, Seq<ExprView>), ErrorView>((parts.0@, exprs_view(parts.1@))),
            Err(error) => guarded_block(old(tokenizer).tokens(), old(tokenizer).position(), token@).out
                == Err::<(ExprView, Seq<ExprView>), ErrorView>(error@),
        },
    decreases old(tokenizer).left(), 7nat,
{
    let condition = parser.operand(token.get_type().precedence(), tokenizer, &token.get_value())?;
    let next = match tokenizer.peek() {
        Some(t) => t,
        None => {
            return Err(Error::UnexpectedEof(token.get_value()));
        },
    };
    if !next.check(TokenType::OpenBrace) {
        return Err(Error::ExpectedOpenBrace(next.get_value()));
    }
    tokenizer.next();
    let body = parser.block(tokenizer, &token.get_value())?;
    Ok((condition, body))
}

impl WhileParselet {
    /// Parses the condition and the block of a loop.
    pub fn parse(&self, parser: &Parser, tokenizer: &mut Tokenizer, token: Token) -> (r: Result<Expression, Error>)
        ensures
            advanced(*old(tokenizer), *final(tokenizer), while_rule(old(tokenizer).tokens(), old(tokenizer).position(), token@).used),
            yields(r, while_rule(old(tokenizer).tokens(), old(tokenizer).position(), token@).out),
        decreases old(tokenizer).left(), 8nat,
    {
        let (condition, body) = parse_guarded_block(parser, tokenizer, &token)?;
        Ok(Expression::While { condition: Box::new(condition), body })
    }
}

impl IfElseParselet {
    /// Parses the condition and the block of a conditional, and the second
    /// block where `else` follows.
    pub fn parse(&self, parser: &Parser, tokenizer: &mut Tokenizer, token: Token) -> (r: Result<Expression, Error>)
        ensures
            advanced(*old(tokenizer), *final(tokenizer), if_rule(old(tokenizer).tokens(), old(tokenizer).position(), token@).used),
            yields(r, if_rule(old(tokenizer).tokens(), old(tokenizer).position(), token@).out),
        decreases old(tokenizer).left(), 8nat,
    {
        let (condition, body_true) = parse_guarded_block(parser, tokenizer, &token)?;
        let else_token = match tokenizer.peek() {
            Some(t) => t,
            None => {
                return Ok(Expression::If { condition: Box::new(condition), body: body_true });
            },
        };
        if !else_token.check(TokenType::Else) {
            return Ok(Expression::If { condition: Box::new(condition), body: body_true });
        }
        tokenizer.next();
        let brace = match tokenizer.peek() {
            Some(t) => t,
            None => {
                return Err(Error::UnexpectedEof(else_token.get_value()));
            },
        };
        if !brace.check(TokenType::OpenBrace) {
            return Err(Error::ExpectedOpenBrace(brace.get_value()));
        }
        tokenizer.next();
        let body_false = parser.block(tokenizer, &else_token.get_value())?;
        Ok(Expression::IfElse { condition: Box::new(condition), body_true, body_false })
    }
}

impl StructParselet {
    /// Parses the definition of a struct, or an instance of one.
    pub fn parse(&self, parser: &Parser, tokenizer: &mut Tokenizer, token: Token) -> (r: Result<Expression, Error>)
        ensures
            advanced(*old(tokenizer), *final(tokenizer), struct_rule(old(tokenizer).tokens(), old(tokenizer).position(), token@).used),
            yields(r, struct_rule(old(tokenizer).tokens(), old(tokenizer).position(), token@).out),
        decreases old(tokenizer).left(), 7nat,
    {
        if !token.check(TokenType::Struct) {
            return Err(Error::CouldNotParse(token.get_value()));
        }
        let name = match tokenizer.peek() {
            Some(t) => t,
            None => {
                return Err(Error::UnexpectedEof(token.get_value()));
            },
        };
        if !name.check(TokenType::Identifier) {
            return Err(Error::ExpectedIdentifier(name.get_value()));
        }
        tokenizer.next();
        let next = match tokenizer.peek() {
            Some(t) => t,
            None => {
                return Err(Error::UnexpectedEof(token.get_value()));
            },
        };
        match next.get_type() {
            TokenType::OpenBrace => {
                tokenizer.next();
                let body = parser.struct_fields(tokenizer, &token.get_value())?;
                Ok(Expression::Struct { identifier: name.get_value(), variables: body })
            },
            TokenType::Identifier => {
                tokenizer.next();
                let instance_name = next.get_value();
                match tokenizer.next() {
                    Some(t) => {
                        if !t.check(TokenType::OpenBrace) {
                            return Err(Error::ExpectedOpenBrace(t.get_value()));
                        }
                    },
                    None => {
                        return Err(Error::UnexpectedEof(instance_name));
                    },
                }
                let variables = parser.init_fields(tokenizer, &token.get_value())?;
                Ok(Expression::StructInit { identifier: name.get_value(), name: instance_name, variables })
            },
            _ => Err(Error::ExpectedOpenBrace(next.get_value())),
        }
    }
}

/// What every prefix rule can do: start an expression from the token that
/// has just been consumed.
pub trait PrefixParselet {
    /// What the rule makes of `token`, which stands just before `pos`.
    spec fn outcome(&self, ts: Seq<TokenView>, pos: nat, token: TokenView) -> Step<ExprView>;

    /// Applies the rule to `token`.
    fn parse(&self, parser: &Parser, tokenizer: &mut Tokenizer, token: Token) -> (r: Result<Expression, Error>)
        ensures
            advanced(*old(tokenizer), *final(tokenizer), self.outcome(old(tokenizer).tokens(), old(tokenizer).position(), token@).used),
            yields(r, self.outcome(old(tokenizer).tokens(), old(tokenizer).position(), token@).out),
    ;
}

impl PrefixParselet for DatatypeParselet {
    open spec fn outcome(&self, ts: Seq<TokenView>, pos: nat, token: TokenView) -> Step<ExprView> {
        datatype_rule(ts, pos, token)
    }

    fn parse(&self, parser: &Parser, tokenizer: &mut Tokenizer, token: Token) -> (r: Result<Expression, Error>) {
        DatatypeParselet::parse(self, parser, tokenizer, token)
    }
}

impl PrefixParselet for IdentifierParselet {
    open spec fn outcome(&self, ts: Seq<TokenView>, pos: nat, token: TokenView) -> Step<ExprView> {
        identifier_rule(ts, pos, token)
    }

    fn parse(&self, parser: &Parser, tokenizer: &mut Tokenizer, token: Token) -> (r: Result<Expression, Error>) {
        IdentifierParselet::parse(self, parser, tokenizer, token)
    }
}

impl PrefixParselet for AssignmentParselet {
    open spec fn outcome(&self, ts: Seq<TokenView>, pos: nat, token: TokenView) -> Step<ExprView> {
        let_rule(ts, pos, token)
    }

    fn parse(&self, parser: &Parser, tokenizer: &mut Tokenizer, token: Token) -> (r: Result<Expression, Error>) {
        AssignmentParselet::parse(self, parser, tokenizer, token)
    }
}

impl PrefixParselet for LiteralParselet {
    open spec fn outcome(&self, ts: Seq<TokenView>, pos: nat, token: TokenView) -> Step<ExprView> {
        literal_rule(ts, pos, token)
    }

    fn parse(&self, parser: &Parser, tokenizer: &mut Tokenizer, token: Token) -> (r: Result<Expression, Error>) {
        LiteralParselet::parse(self, parser, tokenizer, token)
    }
}

impl PrefixParselet for ParenParselet {
    open spec fn outcome(&self, ts: Seq<TokenView>, pos: nat, token: TokenView) -> Step<ExprView> {
        paren_rule(ts, pos, token)
    }

    fn parse(&self, parser: &Parser, tokenizer: &mut Tokenizer, token: Token) -> (r: Result<Expression, Error>) {
        ParenParselet::parse(self, parser, tokenizer, token)
    }
}

impl PrefixParselet for UnaryOpParselet {
    open spec fn outcome(&self, ts: Seq<TokenView>, pos: nat, token: TokenView) -> Step<ExprView> {
        unary_rule(ts, pos, token)
    }

    fn parse(&self, parser: &Parser, tokenizer: &mut Tokenizer, token: Token) -> (r: Result<Expression, Error>) {
        UnaryOpParselet::parse(self, parser, tokenizer, token)
    }
}

impl PrefixParselet for WhileParselet {
    open spec fn outcome(&self, ts: Seq<TokenView>, pos: nat, token: TokenView) -> Step<ExprView> {
        while_rule(ts, pos, token)
    }

    fn parse(&self, parser: &Parser, tokenizer: &mut Tokenizer, token: Token) -> (r: Result<Expression, Error>) {
        WhileParselet::parse(self, parser, tokenizer, token)
    }
}

impl PrefixParselet for IfElseParselet {
    open spec fn outcome(&self, ts: Seq<TokenView>, pos: nat, token: TokenView) -> Step<ExprView> {
        if_rule(ts, pos, token)
    }

    fn parse(&self, parser: &Parser, tokenizer: &mut Tokenizer, token: Token) -> (r: Result<Expression, Error>) {
        IfElseParselet::parse(self, parser, tokenizer, token)
    }
}

impl PrefixParselet for StructParselet {
    open spec fn outcome(&self, ts: Seq<TokenView>, pos: nat, token: TokenView) -> Step<ExprView> {
        struct_rule(ts, pos, token)
    }

    fn parse(&self, parser: &Parser, tokenizer: &mut Tokenizer, token: Token) -> (r: Result<Expression, Error>) {
        StructParselet::parse(self, parser, tokenizer, token)
    }
}

impl PrefixParselet for StructInitParselet {
    open spec fn outcome(&self, ts: Seq<TokenView>, pos: nat, token: TokenView) -> Step<ExprView> {
        structinit_rule(ts, pos, token)
    }

    fn parse(&self, parser: &Parser, tokenizer: &mut Tokenizer, token: Token) -> (r: Result<Expression, Error>) {
        StructInitParselet::parse(self, parser, tokenizer, token)
    }
}

impl PrefixParselet for ReturnParselet {
    open spec fn outcome(&self, ts: Seq<TokenView>, pos: nat, token: TokenView) -> Step<ExprView> {
        return_rule(ts, pos, token)
    }

    fn parse(&self, parser: &Parser, tokenizer: &mut Tokenizer, token: Token) -> (r: Result<Expression, Error>) {
        ReturnParselet::parse(self, parser, tokenizer, token)
    }
}

impl PrefixParselet for UseParselet {
    open spec fn outcome(&self, ts: Seq<TokenView>, pos: nat, token: TokenView) -> Step<ExprView> {
        use_rule(ts, pos, token)
    }

    fn parse(&self, parser: &Parser, tokenizer: &mut Tokenizer, token: Token) -> (r: Result<Expression, Error>) {
        UseParselet::parse(self, parser, tokenizer, token)
    }
}

} // verus!
