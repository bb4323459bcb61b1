//! The infix rules: each extends the expression parsed so far, given the
//! token that has just been consumed.

use vstd::prelude::*;
use vstd::string::StringExecFns;
use crate::error::{Error, ErrorView};
use crate::expression::{Expression, ExprView, lemma_pairs_view_push, pairs_view};
use crate::grammar::{
    Step, binary_operator, binop_rule, call_rule, declaration_rule, fn_args, fn_return_type, fn_rule, reassignment_rule,
    shift, ternary_rule,
};
use crate::parser::{Parser, advanced, yields, yields_pairs};
use crate::token::{Token, TokenType, TokenView};
use crate::tokenizer::Tokenizer;

verus! {

/// The rule of the assignment operator: an assignment after a declaration, a
/// reassignment after a name.
pub struct ReassignmentParselet {}

/// The rule of `(` after an expression: a call.
pub struct OpenParenParselet {}

/// The rule of an operator between two operands.
pub struct BinOpParselet {}

/// The rule of `?`: a conditional expression.
pub struct TernaryParselet {}

/// The rule of `::`: the definition of a function.
pub struct FnDeclarationParselet {}

/// The rule of a name after a type: a declaration. The parser has it for no
/// kind of token.
pub struct DeclarationParselet {}

impl DeclarationParselet {
    /// Makes a declaration of the type to the left and the name in `token`.
    pub fn parse(&self, _parser: &Parser, tokenizer: &mut Tokenizer, left: Expression, token: Token) -> (r: Result<Expression, Error>)
        ensures
            advanced(*old(tokenizer), *final(tokenizer), declaration_rule(left@, token@).used),
            yields(r, declaration_rule(left@, token@).out),
    {
        if let Expression::Type(t) = left {
            if token.check(TokenType::Identifier) {
                Ok(Expression::Declaration { datatype: t, identifier: token.get_value() })
            } else {
                Err(Error::ExpectedIdentifier(token.get_value()))
            }
        } else {
            Err(Error::ExpectedDatatypeKeyword(token.get_value()))
        }
    }
}

impl ReassignmentParselet {
    /// Parses the value after the assignment operator.
    pub fn parse(&self, parser: &Parser, tokenizer: &mut Tokenizer, left: Expression, token: Token) -> (r: Result<Expression, Error>)
        ensures
            advanced(*old(tokenizer), *final(tokenizer), reassignment_rule(old(tokenizer).tokens(), old(tokenizer).position(), left@, token@).used),
            yields(r, reassignment_rule(old(tokenizer).tokens(), old(tokenizer).position(), left@, token@).out),
        decreases old(tokenizer).left(), 7nat,
    {
        if !token.check(TokenType::Assignment) {
            return Err(Error::CouldNotParse(token.get_value()));
        }
        match left {
            Expression::Declaration { datatype, identifier } => {
                let right_hand_side = parser.operand(token.get_type().precedence(), tokenizer, &identifier)?;
                Ok(Expression::Assignment { datatype, identifier, value: Box::new(right_hand_side) })
            },
            Expression::Identifier(id) => {
                let right_hand_side = parser.operand(token.get_type().precedence(), tokenizer, &id)?;
                Ok(Expression::Reassignment { identifier: id, value: Box::new(right_hand_side) })
            },
            _ => Err(Error::ExpectedIdentifier(token.get_value())),
        }
    }
}

impl OpenParenParselet {
    /// Parses the arguments of a call of the function named to the left.
    pub fn parse(&self, parser: &Parser, tokenizer: &mut Tokenizer, left: Expression, token: Token) -> (r: Result<Expression, Error>)
        ensures
            advanced(*old(tokenizer), *final(tokenizer), call_rule(old(tokenizer).tokens(), old(tokenizer).position(), left@, token@).used),
            yields(r, call_rule(old(tokenizer).tokens(), old(tokenizer).position(), left@, token@).out),
        decreases old(tokenizer).left(), 7nat,
    {
        if let Expression::Identifier(fn_name) = left {
            let args = parser.call_args(tokenizer, &token)?;
            Ok(Expression::FnCall { name: fn_name, args })
        } else {
            Err(Error::ExpectedIdentifier(token.get_value()))
        }
    }
}

/// Whether a token of this kind is an operator between two operands.
pub fn is_binary_operator(kind: TokenType) -> (r: bool)
    ensures
        r == binary_operator(kind),
{
    match kind {
        TokenType::Plus
        | TokenType::Minus
        | TokenType::Multiply
        | TokenType::Divide
        | TokenType::Greater
        | TokenType::Less
        | TokenType::Equal
        | TokenType::GreaterEqual
        | TokenType::LessEqual => true,
        _ => false,
    }
}

impl BinOpParselet {
    /// Parses the right operand of an operator.
    pub fn parse(&self, parser: &Parser, tokenizer: &mut Tokenizer, left: Expression, token: Token) -> (r: Result<Expression, Error>)
        ensures
            advanced(*old(tokenizer), *final(tokenizer), binop_rule(old(tokenizer).tokens(), old(tokenizer).position(), left@, token@).used),
            yields(r, binop_rule(old(tokenizer).tokens(), old(tokenizer).position(), left@, token@).out),
        decreases old(tokenizer).left(), 7nat,
    {
        let right = parser.operand(token.get_type().precedence(), tokenizer, &token.get_value())?;
        if !is_binary_operator(token.get_type()) {
            return Err(Error::InvalidOperator(token.get_value()));
        }
        Ok(Expression::BinOp { left: Box::new(left), op: token.get_type(), right: Box::new(right) })
    }
}

impl TernaryParselet {
    /// Parses the two values of a conditional expression, with `|` between them.
    pub fn parse(&self, parser: &Parser, tokenizer: &mut Tokenizer, left: Expression, token: Token) -> (r: Result<Expression, Error>)
        ensures
            advanced(*old(tokenizer), *final(tokenizer), ternary_rule(old(tokenizer).tokens(), old(tokenizer).position(), left@, token@).used),
            yields(r, ternary_rule(old(tokenizer).tokens(), old(tokenizer).position(), left@, token@).out),
        decreases old(tokenizer).left(), 7nat,
    {
        let if_expr = parser.operand(token.get_type().precedence(), tokenizer, &token.get_value())?;
        let ternary_else = match tokenizer.next() {
            Some(t) => t,
            None => {
                return Err(Error::UnexpectedEof(token.get_value()));
            },
        };
        if !ternary_else.check(TokenType::TernaryElse) {
            return Err(Error::CouldNotParse(ternary_else.get_value()));
        }
        let else_expr = parser.operand(ternary_else.get_type().precedence(), tokenizer, &token.get_value())?;
        Ok(Expression::TernaryIfElse { condition: Box::new(left), body_true: Box::new(if_expr), body_false: Box::new(else_expr) })
    }
}

impl FnDeclarationParselet {
    /// Parses the arguments, the return type and the body of the function
    /// named to the left.
    pub fn parse(&self, parser: &Parser, tokenizer: &mut Tokenizer, left: Expression, token: Token) -> (r: Result<Expression, Error>)
        ensures
            advanced(*old(tokenizer), *final(tokenizer), fn_rule(old(tokenizer).tokens(), old(tokenizer).position(), left@, token@).used),
            yields(r, fn_rule(old(tokenizer).tokens(), old(tokenizer).position(), left@, token@).out),
        decreases old(tokenizer).left(), 7nat,
    {
        let name = match left {
            Expression::Identifier(s) => s,
            _ => {
                return Err(Error::ExpectedIdentifier(String::from_str("before function declaration")));
            },
        };
        let args = Self::arguments(tokenizer)?;
        let return_type = Self::return_type(tokenizer, &token)?;
        let body = parser.block(tokenizer, &token.get_value())?;
        Ok(Expression::FnDeclaration { identifier: name, arguments: args, return_type, body })
    }

    /// Parses the arguments of a function definition: pairs of a type and a
    /// name, up to a `->`, a `{` or the end of the tokens.
    #[verifier::loop_isolation(false)]
    pub fn arguments(tokenizer: &mut Tokenizer) -> (r: Result<Vec<(String, String)>, Error>)
        ensures
            advanced(*old(tokenizer), *final(tokenizer), fn_args(old(tokenizer).tokens(), old(tokenizer).position(), Seq::empty()).used),
            yields_pairs(r, fn_args(old(tokenizer).tokens(), old(tokenizer).position(), Seq::empty()).out),
    {
        let ghost ts = tokenizer.tokens();
        let ghost start = tokenizer.position();
        let mut args: Vec<(String, String)> = Vec::new();
        assert(pairs_view(args@) =~= Seq::<(Seq<char>, Seq<char>)>::empty());
        loop
            invariant
                tokenizer.tokens() == ts,
                start <= tokenizer.position(),
                fn_args(ts, start, Seq::empty()) == shift(fn_args(ts, tokenizer.position(), pairs_view(args@)), (tokenizer.position() - start) as nat),
            decreases tokenizer.left(),
        {
            let t = match tokenizer.peek() {
                Some(t) => t,
                None => {
                    return Ok(args);
                },
            };
            if t.check(TokenType::FnReturnType) || t.check(TokenType::OpenBrace) {
                return Ok(args);
            }
            tokenizer.next();
            let argtype = match t.get_type() {
                TokenType::Type | TokenType::Identifier => t.get_value(),
                _ => {
                    return Err(Error::ExpectedIdentifier(t.get_value()));
                },
            };
            let option_arg = match tokenizer.next() {
                Some(t) => t,
                None => {
                    return Err(Error::UnexpectedEof(argtype));
                },
            };
            let arg = match option_arg.get_type() {
                TokenType::Identifier => option_arg.get_value(),
                _ => {
                    return Err(Error::ExpectedIdentifier(option_arg.get_value()));
                },
            };
            proof {
                lemma_pairs_view_push(args@, (arg, argtype));
            }
            args.push((arg, argtype));
        }
    }

    /// Parses the return type of a function definition and the `{` that
    /// opens its body.
    pub fn return_type(tokenizer: &mut Tokenizer, token: &Token) -> (r: Result<String, Error>)
        ensures
            advanced(*old(tokenizer), *final(tokenizer), fn_return_type(old(tokenizer).tokens(), old(tokenizer).position(), token@).used),
            match r {
                Ok(name) => fn_return_type(old(tokenizer).tokens(), old(tokenizer).position(), token@).out == Ok::<Seq<char>, ErrorView>(name@),
                Err(error) => fn_return_type(old(tokenizer).tokens(), old(tokenizer).position(), token@).out == Err::<Seq<char>, ErrorView>(error@),
            },
    {
        let peek = match tokenizer.peek() {
            Some(n) => n,
            None => {
                return Err(Error::UnexpectedEof(token.get_value()));
            },
        };
        match peek.get_type() {
            TokenType::FnReturnType => {
                tokenizer.next();
                let next = match tokenizer.next() {
                    Some(n) => n,
                    None => {
                        return Err(Error::UnexpectedEof(token.get_value()));
                    },
                };
                let value = match next.get_type() {
                    TokenType::Type | TokenType::Identifier => next.get_value(),
                    _ => {
                        return Err(Error::ExpectedDatatypeKeyword(next.get_value()));
                    },
                };
                let open = match tokenizer.peek() {
                    Some(n) => n,
                    None => {
                        return Err(Error::UnexpectedEof(token.get_value()));
                    },
                };
                if !open.check(TokenType::OpenBrace) {
                    return Err(Error::ExpectedOpenBrace(open.get_value()));
                }
                tokenizer.next();
                Ok(value)
            },
            TokenType::OpenBrace => {
                tokenizer.next();
                Ok(String::from_str("nul"))
            },
            _ => Err(Error::ExpectedReturnType(peek.get_value())),
        }
    }
}

/// What every infix rule can do: extend the expression parsed so far, given
/// the token that has just been consumed.
pub trait InfixParselet {
    /// What the rule makes of `left` and `token`, which stands just before `pos`.
    spec fn outcome(&self, ts: Seq<TokenView>, pos: nat, left: ExprView, token: TokenView) -> Step<ExprView>;

    /// Applies the rule to `left` and `token`.
    fn parse(&self, parser: &Parser, tokenizer: &mut Tokenizer, left: Expression, token: Token) -> (r: Result<Expression, Error>)
        ensures
            advanced(*old(tokenizer), *final(tokenizer), self.outcome(old(tokenizer).tokens(), old(tokenizer).position(), left@, token@).used),
            yields(r, self.outcome(old(tokenizer).tokens(), old(tokenizer).position(), left@, token@).out),
    ;
}

impl InfixParselet for DeclarationParselet {
    open spec fn outcome(&self, ts: Seq<TokenView>, pos: nat, left: ExprView, token: TokenView) -> Step<ExprView> {
        declaration_rule(left, token)
    }

    fn parse(&self, parser: &Parser, tokenizer: &mut Tokenizer, left: Expression, token: Token) -> (r: Result<Expression, Error>) {
        DeclarationParselet::parse(self, parser, tokenizer, left, token)
    }
}

impl InfixParselet for ReassignmentParselet {
    open spec fn outcome(&self, ts: Seq<TokenView>, pos: nat, left: ExprView, token: TokenView) -> Step<ExprView> {
        reassignment_rule(ts, pos, left, token)
    }

    fn parse(&self, parser: &Parser, tokenizer: &mut Tokenizer, left: Expression, token: Token) -> (r: Result<Expression, Error>) {
        ReassignmentParselet::parse(self, parser, tokenizer, left, token)
    }
}

impl InfixParselet for OpenParenParselet {
    open spec fn outcome(&self, ts: Seq<TokenView>, pos: nat, left: ExprView, token: TokenView) -> Step<ExprView> {
        call_rule(ts, pos, left, token)
    }

    fn parse(&self, parser: &Parser, tokenizer: &mut Tokenizer, left: Expression, token: Token) -> (r: Result<Expression, Error>) {
        OpenParenParselet::parse(self, parser, tokenizer, left, token)
    }
}

impl InfixParselet for BinOpParselet {
    open spec fn outcome(&self, ts: Seq<TokenView>, pos: nat, left: ExprView, token: TokenView) -> Step<ExprView> {
        binop_rule(ts, pos, left, token)
    }

    fn parse(&self, parser: &Parser, tokenizer: &mut Tokenizer, left: Expression, token: Token) -> (r: Result<Expression, Error>) {
        BinOpParselet::parse(self, parser, tokenizer, left, token)
    }
}

impl InfixParselet for TernaryParselet {
    open spec fn outcome(&self, ts: Seq<TokenView>, pos: nat, left: ExprView, token: TokenView) -> Step<ExprView> {
        ternary_rule(ts, pos, left, token)
    }

    fn parse(&self, parser: &Parser, tokenizer: &mut Tokenizer, left: Expression, token: Token) -> (r: Result<Expression, Error>) {
        TernaryParselet::parse(self, parser, tokenizer, left, token)
    }
}

impl InfixParselet for FnDeclarationParselet {
    open spec fn outcome(&self, ts: Seq<TokenView>, pos: nat, left: ExprView, token: TokenView) -> Step<ExprView> {
        fn_rule(ts, pos, left, token)
    }

    fn parse(&self, parser: &Parser, tokenizer: &mut Tokenizer, left: Expression, token: Token) -> (r: Result<Expression, Error>) {
        FnDeclarationParselet::parse(self, parser, tokenizer, left, token)
    }
}

} // verus!
