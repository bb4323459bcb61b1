//! What the parser produces, stated over plain values.
//!
//! The parser is a Pratt parser. Each kind of token may have a prefix rule,
//! which starts an expression from that token, and an infix rule, which
//! extends the expression parsed so far. `parse` reads one expression:
//! the prefix rule of its first token gives the left side, which is then
//! extended by the infix rule of each following token that binds tighter
//! than the given precedence.
//!
//! Every function here takes the tokens and the position it starts at, and
//! gives how many tokens it consumes from there and either what it parsed or
//! the failure that stops the parse.

use vstd::prelude::*;
use crate::decimal::{float_literal, int_literal};
use crate::error::{ErrorKind, ErrorView, failure};
use crate::expression::ExprView;
use crate::paths::slash_path;
use crate::token::{TokenType, TokenView, precedence_of};
use crate::tokenizer::{remaining, token_at};

verus! {

/// The rules that start an expression.
#[derive(PartialEq, Eq, Structural, Clone, Copy, Debug)]
pub enum PrefixRule {
    Datatype,
    Identifier,
    Assignment,
    Literal,
    Paren,
    UnaryOp,
    While,
    IfElse,
    Struct,
    Return,
    Use,
}

/// The rules that extend an expression.
#[derive(PartialEq, Eq, Structural, Clone, Copy, Debug)]
pub enum InfixRule {
    Reassignment,
    Call,
    BinOp,
    Ternary,
    FnDeclaration,
}

/// The prefix rule of each kind of token; `None` for a kind that starts no expression.
pub open spec fn prefix_rule(kind: TokenType) -> Option<PrefixRule> {
    match kind {
        TokenType::Type => Some(PrefixRule::Datatype),
        TokenType::Identifier => Some(PrefixRule::Identifier),
        TokenType::Ref => Some(PrefixRule::Identifier),
        TokenType::Let => Some(PrefixRule::Assignment),
        TokenType::While => Some(PrefixRule::While),
        TokenType::If => Some(PrefixRule::IfElse),
        TokenType::Int => Some(PrefixRule::Literal),
        TokenType::Float => Some(PrefixRule::Literal),
        TokenType::Bool => Some(PrefixRule::Literal),
        TokenType::SingleQuote => Some(PrefixRule::Literal),
        TokenType::OpenParen => Some(PrefixRule::Paren),
        TokenType::Minus => Some(PrefixRule::UnaryOp),
        TokenType::Not => Some(PrefixRule::UnaryOp),
        TokenType::Struct => Some(PrefixRule::Struct),
        TokenType::Return => Some(PrefixRule::Return),
        TokenType::Use => Some(PrefixRule::Use),
        _ => None,
    }
}

/// The infix rule of each kind of token; `None` for a kind that extends no expression.
pub open spec fn infix_rule(kind: TokenType) -> Option<InfixRule> {
    match kind {
        TokenType::Assignment => Some(InfixRule::Reassignment),
        TokenType::OpenParen => Some(InfixRule::Call),
        TokenType::Plus => Some(InfixRule::BinOp),
        TokenType::Minus => Some(InfixRule::BinOp),
        TokenType::Multiply => Some(InfixRule::BinOp),
        TokenType::Divide => Some(InfixRule::BinOp),
        TokenType::Greater => Some(InfixRule::BinOp),
        TokenType::Less => Some(InfixRule::BinOp),
        TokenType::GreaterEqual => Some(InfixRule::BinOp),
        TokenType::LessEqual => Some(InfixRule::BinOp),
        TokenType::Equal => Some(InfixRule::BinOp),
        TokenType::TernaryIf => Some(InfixRule::Ternary),
        TokenType::FnDeclaration => Some(InfixRule::FnDeclaration),
        _ => None,
    }
}

/// Whether a token of this kind is an operator between two operands.
pub open spec fn binary_operator(kind: TokenType) -> bool {
    kind == TokenType::Plus || kind == TokenType::Minus || kind == TokenType::Multiply || kind == TokenType::Divide
        || kind == TokenType::Greater || kind == TokenType::Less || kind == TokenType::Equal || kind == TokenType::GreaterEqual
        || kind == TokenType::LessEqual
}

/// The outcome of a step of the parse: how many tokens it consumed, and what
/// it parsed or the failure.
pub struct Step<T> {
    pub used: nat,
    pub out: Result<T, ErrorView>,
}

/// A step that parsed `value`.
pub open spec fn done<T>(used: nat, value: T) -> Step<T> {
    Step { used, out: Ok(value) }
}

/// A step that failed.
pub open spec fn fail<T>(used: nat, kind: ErrorKind, near: Seq<char>) -> Step<T> {
    Step { used, out: Err(failure(kind, near)) }
}

/// A step that failed with the given failure.
pub open spec fn fail_with<T>(used: nat, error: ErrorView) -> Step<T> {
    Step { used, out: Err(error) }
}

/// The step after `by` more tokens were consumed before it.
pub open spec fn shift<T>(step: Step<T>, by: nat) -> Step<T> {
    Step { used: step.used + by, out: step.out }
}

/// The index of the first entry at or after `from` that is called `name`, or
/// the number of entries.
pub open spec fn name_index<V>(entries: Seq<(Seq<char>, V)>, name: Seq<char>, from: int) -> int
    decreases entries.len() - from,
{
    if from < 0 || from >= entries.len() {
        entries.len() as int
    } else if entries[from].0 == name {
        from
    } else {
        name_index(entries, name, from + 1)
    }
}

/// The entries with `name` bound to `value`: in place of the first entry of
/// that name, or at the end if there is none.
pub open spec fn put<V>(entries: Seq<(Seq<char>, V)>, name: Seq<char>, value: V) -> Seq<(Seq<char>, V)> {
    let at = name_index(entries, name, 0);
    if at < entries.len() {
        entries.update(at, (name, value))
    } else {
        entries.push((name, value))
    }
}

/// One expression, or `None` where no token is left.
pub open spec fn parse(ts: Seq<TokenView>, pos: nat, precedence: nat) -> Step<Option<ExprView>>
    decreases remaining(ts, pos), 1nat,
{
    match token_at(ts, pos) {
        None => done(0, None),
        Some(first) => {
            let parsed = expression(ts, pos + 1, first, precedence);
            match parsed.out {
                Ok(e) => done(parsed.used + 1, Some(e)),
                Err(error) => fail_with(parsed.used + 1, error),
            }
        },
    }
}

/// One expression, a token being required: `None` from `parse` is the failure
/// to parse near `near`.
pub open spec fn operand(ts: Seq<TokenView>, pos: nat, precedence: nat, near: Seq<char>) -> Step<ExprView>
    decreases remaining(ts, pos), 2nat,
{
    let parsed = parse(ts, pos, precedence);
    match parsed.out {
        Ok(Some(e)) => done(parsed.used, e),
        Ok(None) => fail(parsed.used, ErrorKind::CouldNotParse, near),
        Err(error) => fail_with(parsed.used, error),
    }
}

/// The expression that starts with the token `first`, which stands just before `pos`.
pub open spec fn expression(ts: Seq<TokenView>, pos: nat, first: TokenView, precedence: nat) -> Step<ExprView>
    decreases remaining(ts, pos), 12nat,
{
    match prefix_rule(first.kind) {
        None => fail(0, ErrorKind::CouldNotParse, first.text),
        Some(rule) => {
            let left = prefix(rule, ts, pos, first);
            match left.out {
                Err(_) => left,
                Ok(e) => shift(climb(ts, pos + left.used, precedence, e), left.used),
            }
        },
    }
}

/// The expression `left` extended by the infix rule of each following token
/// that binds tighter than `precedence`.
pub open spec fn climb(ts: Seq<TokenView>, pos: nat, precedence: nat, left: ExprView) -> Step<ExprView>
    decreases remaining(ts, pos), 11nat,
{
    match token_at(ts, pos) {
        None => done(0, left),
        Some(token) => if precedence < precedence_of(token.kind) {
            match infix_rule(token.kind) {
                None => done(0, left),
                Some(rule) => {
                    let extended = infix(rule, ts, pos + 1, left, token);
                    match extended.out {
                        Err(_) => shift(extended, 1),
                        Ok(e) => shift(climb(ts, pos + 1 + extended.used, precedence, e), 1 + extended.used),
                    }
                },
            }
        } else {
            done(0, left)
        },
    }
}

/// What the prefix rule `rule` makes of the token `token`, which stands just before `pos`.
pub open spec fn prefix(rule: PrefixRule, ts: Seq<TokenView>, pos: nat, token: TokenView) -> Step<ExprView>
    decreases remaining(ts, pos), 10nat,
{
    match rule {
        PrefixRule::Datatype => datatype_rule(ts, pos, token),
        PrefixRule::Identifier => identifier_rule(ts, pos, token),
        PrefixRule::Assignment => let_rule(ts, pos, token),
        PrefixRule::Literal => literal_rule(ts, pos, token),
        PrefixRule::Paren => paren_rule(ts, pos, token),
        PrefixRule::UnaryOp => unary_rule(ts, pos, token),
        PrefixRule::While => while_rule(ts, pos, token),
        PrefixRule::IfElse => if_rule(ts, pos, token),
        PrefixRule::Struct => struct_rule(ts, pos, token),
        PrefixRule::Return => return_rule(ts, pos, token),
        PrefixRule::Use => use_rule(ts, pos, token),
    }
}

/// What the infix rule `rule` makes of the expression `left` and the token
/// `token`, which stands just before `pos`.
pub open spec fn infix(rule: InfixRule, ts: Seq<TokenView>, pos: nat, left: ExprView, token: TokenView) -> Step<ExprView>
    decreases remaining(ts, pos), 10nat,
{
    match rule {
        InfixRule::Reassignment => reassignment_rule(ts, pos, left, token),
        InfixRule::Call => call_rule(ts, pos, left, token),
        InfixRule::BinOp => binop_rule(ts, pos, left, token),
        InfixRule::Ternary => ternary_rule(ts, pos, left, token),
        InfixRule::FnDeclaration => fn_rule(ts, pos, left, token),
    }
}

/// A type keyword and the name that follows it: a declaration.
pub open spec fn datatype_rule(ts: Seq<TokenView>, pos: nat, token: TokenView) -> Step<ExprView> {
    if token.kind != TokenType::Type {
        fail(0, ErrorKind::ExpectedDatatypeKeyword, token.text)
    } else {
        match token_at(ts, pos) {
            None => fail(0, ErrorKind::ExpectedIdentifier, token.text),
            Some(name) => if name.kind == TokenType::Identifier {
                done(1, ExprView::Declaration { datatype: token.text, identifier: name.text })
            } else {
                fail(0, ErrorKind::ExpectedIdentifier, name.text)
            },
        }
    }
}

/// A declaration as an infix rule: the type stands to the left and the token is the name.
pub open spec fn declaration_rule(left: ExprView, token: TokenView) -> Step<ExprView> {
    match left {
        ExprView::Type(datatype) => if token.kind == TokenType::Identifier {
            done(0, ExprView::Declaration { datatype, identifier: token.text })
        } else {
            fail(0, ErrorKind::ExpectedIdentifier, token.text)
        },
        _ => fail(0, ErrorKind::ExpectedDatatypeKeyword, token.text),
    }
}

/// A literal: an integer, a floating-point number, a boolean, or a character
/// between two single quotes.
pub open spec fn literal_rule(ts: Seq<TokenView>, pos: nat, token: TokenView) -> Step<ExprView> {
    match token.kind {
        TokenType::Int => match int_literal(token.text) {
            Some(value) => done(0, ExprView::Int(value)),
            None => fail(0, ErrorKind::ExpectedLiteral, token.text),
        },
        TokenType::Float => if float_literal(token.text) {
            done(0, ExprView::Float(token.text))
        } else {
            fail(0, ErrorKind::ExpectedLiteral, token.text)
        },
        TokenType::Bool => if token.text == "true"@ {
            done(0, ExprView::Bool(true))
        } else if token.text == "false"@ {
            done(0, ExprView::Bool(false))
        } else {
            fail(0, ErrorKind::ExpectedBoolean, token.text)
        },
        TokenType::SingleQuote => match token_at(ts, pos) {
            None => fail(0, ErrorKind::UnexpectedEof, token.text),
            Some(inner) => if inner.text.len() != 1 || inner.text[0] > '\u{7f}' {
                fail(1, ErrorKind::ExpectedLiteral, inner.text)
            } else {
                match token_at(ts, pos + 1) {
                    None => fail(1, ErrorKind::UnexpectedEof, token.text),
                    Some(close) => if close.kind == TokenType::SingleQuote {
                        done(2, ExprView::Char(inner.text[0]))
                    } else {
                        fail(1, ErrorKind::ExpectedSingleQuote, close.text)
                    },
                }
            },
        },
        _ => fail(0, ErrorKind::ExpectedLiteral, token.text),
    }
}

/// `use` and a dotted module path.
pub open spec fn use_rule(ts: Seq<TokenView>, pos: nat, token: TokenView) -> Step<ExprView> {
    match token_at(ts, pos) {
        None => fail(0, ErrorKind::UnexpectedEof, token.text),
        Some(module) => if module.kind == TokenType::Identifier {
            done(1, ExprView::Use(slash_path(module.text)))
        } else {
            fail(1, ErrorKind::ExpectedIdentifier, module.text)
        },
    }
}

/// The statements of a block up to the `}` that closes it, added to `acc`.
/// Each statement is a whole expression, parsed at precedence 0.
pub open spec fn block(ts: Seq<TokenView>, pos: nat, acc: Seq<ExprView>, near: Seq<char>) -> Step<Seq<ExprView>>
    decreases remaining(ts, pos), 6nat,
{
    match token_at(ts, pos) {
        None => fail(0, ErrorKind::UnexpectedEof, near),
        Some(first) => if first.kind == TokenType::CloseBrace {
            done(1, acc)
        } else {
            let statement = expression(ts, pos + 1, first, 0);
            match statement.out {
                Err(error) => fail_with(statement.used + 1, error),
                Ok(e) => shift(block(ts, pos + 1 + statement.used, acc.push(e), near), 1 + statement.used),
            }
        },
    }
}

/// The fields of a struct definition up to the `}` that closes it, added to
/// `acc`: each a declaration, which binds the name of the field to its type.
pub open spec fn struct_fields(ts: Seq<TokenView>, pos: nat, acc: Seq<(Seq<char>, Seq<char>)>, near: Seq<char>) -> Step<Seq<(Seq<char>, Seq<char>)>>
    decreases remaining(ts, pos), 6nat,
{
    match token_at(ts, pos) {
        None => fail(0, ErrorKind::UnexpectedEof, near),
        Some(first) => if first.kind == TokenType::CloseBrace {
            done(1, acc)
        } else {
            let field = expression(ts, pos + 1, first, 0);
            match field.out {
                Err(error) => fail_with(field.used + 1, error),
                Ok(ExprView::Declaration { datatype, identifier }) => shift(
                    struct_fields(ts, pos + 1 + field.used, put(acc, identifier, datatype), near),
                    1 + field.used,
                ),
                Ok(_) => fail(field.used + 1, ErrorKind::CouldNotParse, first.text),
            }
        },
    }
}

/// The fields of a struct instance up to the `}` that closes it, added to
/// `acc`: each the name of the field and then its value, a whole expression
/// parsed at precedence 0.
pub open spec fn init_fields(ts: Seq<TokenView>, pos: nat, acc: Seq<(Seq<char>, ExprView)>, near: Seq<char>) -> Step<Seq<(Seq<char>, ExprView)>>
    decreases remaining(ts, pos), 6nat,
{
    match token_at(ts, pos) {
        None => fail(0, ErrorKind::UnexpectedEof, near),
        Some(name) => if name.kind == TokenType::CloseBrace {
            done(1, acc)
        } else {
            let value = operand(ts, pos + 1, 0, name.text);
            match value.out {
                Err(error) => fail_with(value.used + 1, error),
                Ok(e) => shift(init_fields(ts, pos + 1 + value.used, put(acc, name.text, e), near), 1 + value.used),
            }
        },
    }
}

/// The arguments of a call up to the `)` that closes it, added to `acc`. Each
/// is a whole expression, parsed at precedence 0; `open` is the `(` that
/// opened the call.
pub open spec fn call_args(ts: Seq<TokenView>, pos: nat, acc: Seq<ExprView>, open: TokenView) -> Step<Seq<ExprView>>
    decreases remaining(ts, pos), 6nat,
{
    match token_at(ts, pos) {
        None => fail(0, ErrorKind::UnexpectedEof, open.text),
        Some(first) => if first.kind == TokenType::CloseParen {
            done(1, acc)
        } else {
            let argument = expression(ts, pos + 1, first, 0);
            match argument.out {
                Err(error) => fail_with(argument.used + 1, error),
                Ok(e) => shift(call_args(ts, pos + 1 + argument.used, acc.push(e), open), 1 + argument.used),
            }
        },
    }
}

/// The arguments of a function definition, added to `acc`: pairs of a type
/// and a name, up to a `->`, a `{` or the end of the tokens, which is not consumed.
pub open spec fn fn_args(ts: Seq<TokenView>, pos: nat, acc: Seq<(Seq<char>, Seq<char>)>) -> Step<Seq<(Seq<char>, Seq<char>)>>
    decreases remaining(ts, pos),
{
    match token_at(ts, pos) {
        None => done(0, acc),
        Some(datatype) => if datatype.kind == TokenType::FnReturnType || datatype.kind == TokenType::OpenBrace {
            done(0, acc)
        } else if datatype.kind != TokenType::Type && datatype.kind != TokenType::Identifier {
            fail(1, ErrorKind::ExpectedIdentifier, datatype.text)
        } else {
            match token_at(ts, pos + 1) {
                None => fail(1, ErrorKind::UnexpectedEof, datatype.text),
                Some(name) => if name.kind != TokenType::Identifier {
                    fail(2, ErrorKind::ExpectedIdentifier, name.text)
                } else {
                    shift(fn_args(ts, pos + 2, acc.push((name.text, datatype.text))), 2)
                },
            }
        },
    }
}

/// A name, or the instance of a struct where the name is followed by another
/// name, the assignment operator and `{`.
pub open spec fn identifier_rule(ts: Seq<TokenView>, pos: nat, token: TokenView) -> Step<ExprView>
    decreases remaining(ts, pos), 7nat,
{
    if token.kind != TokenType::Identifier && token.kind != TokenType::Ref {
        fail(0, ErrorKind::ExpectedIdentifier, token.text)
    } else if starts_instance(ts, pos) {
        let fields = init_fields(ts, pos + 3, Seq::empty(), token.text);
        match fields.out {
            Err(error) => fail_with(fields.used + 3, error),
            Ok(variables) => done(fields.used + 3, ExprView::StructInit { identifier: token.text, name: ts[pos as int].text, variables }),
        }
    } else if token.text.len() > 0 && token.text[0] == '&' {
        done(0, ExprView::Reference(token.text))
    } else {
        done(0, ExprView::Identifier(token.text))
    }
}

/// Whether the three tokens at `pos` are a name, the assignment operator and `{`.
pub open spec fn starts_instance(ts: Seq<TokenView>, pos: nat) -> bool {
    &&& pos + 2 < ts.len()
    &&& ts[pos as int].kind == TokenType::Identifier
    &&& ts[pos as int + 1].kind == TokenType::Assignment
    &&& ts[pos as int + 2].kind == TokenType::OpenBrace
}

/// `{` and the fields of a struct instance without a name.
pub open spec fn structinit_rule(ts: Seq<TokenView>, pos: nat, token: TokenView) -> Step<ExprView>
    decreases remaining(ts, pos), 7nat,
{
    if token.kind != TokenType::OpenBrace {
        fail(0, ErrorKind::ExpectedOpenBrace, token.text)
    } else {
        let fields = init_fields(ts, pos, Seq::empty(), token.text);
        match fields.out {
            Err(error) => fail_with(fields.used, error),
            Ok(variables) => done(fields.used, ExprView::StructInit { identifier: Seq::empty(), name: Seq::empty(), variables }),
        }
    }
}

/// `let`, a type, a name, the assignment operator and a value.
pub open spec fn let_rule(ts: Seq<TokenView>, pos: nat, token: TokenView) -> Step<ExprView>
    decreases remaining(ts, pos), 7nat,
{
    if token.kind != TokenType::Let {
        fail(0, ErrorKind::CouldNotParse, token.text)
    } else {
        match token_at(ts, pos) {
            None => fail(0, ErrorKind::UnexpectedEof, token.text),
            Some(datatype) => if datatype.kind != TokenType::Type && datatype.kind != TokenType::Identifier {
                fail(1, ErrorKind::ExpectedDatatypeKeyword, datatype.text)
            } else {
                match token_at(ts, pos + 1) {
                    None => fail(1, ErrorKind::UnexpectedEof, token.text),
                    Some(name) => if name.kind != TokenType::Identifier {
                        fail(2, ErrorKind::ExpectedIdentifier, name.text)
                    } else {
                        match token_at(ts, pos + 2) {
                            None => fail(2, ErrorKind::UnexpectedEof, token.text),
                            Some(assign) => if assign.kind != TokenType::Assignment {
                                fail(3, ErrorKind::ExpectedAssignment, assign.text)
                            } else {
                                let value = operand(ts, pos + 3, precedence_of(assign.kind), name.text);
                                match value.out {
                                    Err(error) => fail_with(value.used + 3, error),
                                    Ok(e) => done(
                                        value.used + 3,
                                        ExprView::Assignment { datatype: datatype.text, identifier: name.text, value: Box::new(e) },
                                    ),
                                }
                            },
                        }
                    },
                }
            },
        }
    }
}

/// `(`, a whole expression, parsed at precedence 0, and `)`: the expression
/// itself, without a node for the group.
pub open spec fn paren_rule(ts: Seq<TokenView>, pos: nat, token: TokenView) -> Step<ExprView>
    decreases remaining(ts, pos), 7nat,
{
    if token.kind != TokenType::OpenParen {
        fail(0, ErrorKind::ExpectedOpenParen, token.text)
    } else {
        let inner = operand(ts, pos, 0, token.text);
        match inner.out {
            Err(_) => inner,
            Ok(e) => match token_at(ts, pos + inner.used) {
                None => fail(inner.used, ErrorKind::UnexpectedEof, token.text),
                Some(close) => if close.kind == TokenType::CloseParen {
                    done(inner.used + 1, e)
                } else {
                    fail(inner.used, ErrorKind::ExpectedCloseParen, close.text)
                },
            },
        }
    }
}

/// An operator and its operand, which is parsed at the precedence of the operator.
pub open spec fn unary_rule(ts: Seq<TokenView>, pos: nat, token: TokenView) -> Step<ExprView>
    decreases remaining(ts, pos), 7nat,
{
    let value = operand(ts, pos, precedence_of(token.kind), token.text);
    match value.out {
        Err(_) => value,
        Ok(e) => done(value.used, ExprView::UnaryOp { op: token.kind, expr: Box::new(e) }),
    }
}

/// `return` and a value.
pub open spec fn return_rule(ts: Seq<TokenView>, pos: nat, token: TokenView) -> Step<ExprView>
    decreases remaining(ts, pos), 7nat,
{
    let value = operand(ts, pos, precedence_of(token.kind), token.text);
    match value.out {
        Err(_) => value,
        Ok(e) => done(value.used, ExprView::Return(Box::new(e))),
    }
}

/// A condition, `{` and a block: what stands after `whl` or `if`.
pub open spec fn guarded_block(ts: Seq<TokenView>, pos: nat, token: TokenView) -> Step<(ExprView, Seq<ExprView>)>
    decreases remaining(ts, pos), 7nat,
{
    let condition = operand(ts, pos, precedence_of(token.kind), token.text);
    match condition.out {
        Err(error) => fail_with(condition.used, error),
        Ok(test) => match token_at(ts, pos + condition.used) {
            None => fail(condition.used, ErrorKind::UnexpectedEof, token.text),
            Some(open) => if open.kind != TokenType::OpenBrace {
                fail(condition.used, ErrorKind::ExpectedOpenBrace, open.text)
            } else {
                let body = block(ts, pos + condition.used + 1, Seq::empty(), token.text);
                match body.out {
                    Err(error) => fail_with(body.used + condition.used + 1, error),
                    Ok(statements) => done(body.used + condition.used + 1, (test, statements)),
                }
            },
        },
    }
}

/// `whl`, a condition and a block.
pub open spec fn while_rule(ts: Seq<TokenView>, pos: nat, token: TokenView) -> Step<ExprView>
    decreases remaining(ts, pos), 8nat,
{
    let parts = guarded_block(ts, pos, token);
    match parts.out {
        Err(error) => fail_with(parts.used, error),
        Ok((condition, body)) => done(parts.used, ExprView::While { condition: Box::new(condition), body }),
    }
}

/// `if`, a condition and a block; and, where `else` follows, a second block.
pub open spec fn if_rule(ts: Seq<TokenView>, pos: nat, token: TokenView) -> Step<ExprView>
    decreases remaining(ts, pos), 8nat,
{
    let parts = guarded_block(ts, pos, token);
    match parts.out {
        Err(error) => fail_with(parts.used, error),
        Ok((condition, body)) => match token_at(ts, pos + parts.used) {
            Some(other) => if other.kind != TokenType::Else {
                done(parts.used, ExprView::If { condition: Box::new(condition), body })
            } else {
                match token_at(ts, pos + parts.used + 1) {
                    None => fail(parts.used + 1, ErrorKind::UnexpectedEof, other.text),
                    Some(open) => if open.kind != TokenType::OpenBrace {
                        fail(parts.used + 1, ErrorKind::ExpectedOpenBrace, open.text)
                    } else {
                        let alternative = block(ts, pos + parts.used + 2, Seq::empty(), other.text);
                        match alternative.out {
                            Err(error) => fail_with(alternative.used + parts.used + 2, error),
                            Ok(body_false) => done(
                                alternative.used + parts.used + 2,
                                ExprView::IfElse { condition: Box::new(condition), body_true: body, body_false },
                            ),
                        }
                    },
                }
            },
            None => done(parts.used, ExprView::If { condition: Box::new(condition), body }),
        },
    }
}

/// `struct` and a name, and then either `{` and the fields of a definition,
/// or the name of an instance, `{` and the values of its fields.
pub open spec fn struct_rule(ts: Seq<TokenView>, pos: nat, token: TokenView) -> Step<ExprView>
    decreases remaining(ts, pos), 7nat,
{
    if token.kind != TokenType::Struct {
        fail(0, ErrorKind::CouldNotParse, token.text)
    } else {
        match token_at(ts, pos) {
            None => fail(0, ErrorKind::UnexpectedEof, token.text),
            Some(name) => if name.kind != TokenType::Identifier {
                fail(0, ErrorKind::ExpectedIdentifier, name.text)
            } else {
                match token_at(ts, pos + 1) {
                    None => fail(1, ErrorKind::UnexpectedEof, token.text),
                    Some(next) => if next.kind == TokenType::OpenBrace {
                        let fields = struct_fields(ts, pos + 2, Seq::empty(), token.text);
                        match fields.out {
                            Err(error) => fail_with(fields.used + 2, error),
                            Ok(variables) => done(fields.used + 2, ExprView::Struct { identifier: name.text, variables }),
                        }
                    } else if next.kind == TokenType::Identifier {
                        match token_at(ts, pos + 2) {
                            None => fail(2, ErrorKind::UnexpectedEof, next.text),
                            Some(open) => if open.kind != TokenType::OpenBrace {
                                fail(3, ErrorKind::ExpectedOpenBrace, open.text)
                            } else {
                                let fields = init_fields(ts, pos + 3, Seq::empty(), token.text);
                                match fields.out {
                                    Err(error) => fail_with(fields.used + 3, error),
                                    Ok(variables) => done(
                                        fields.used + 3,
                                        ExprView::StructInit { identifier: name.text, name: next.text, variables },
                                    ),
                                }
                            },
                        }
                    } else {
                        fail(1, ErrorKind::ExpectedOpenBrace, next.text)
                    },
                }
            },
        }
    }
}

/// The assignment operator and a value: after a declaration an assignment,
/// after a name a reassignment.
pub open spec fn reassignment_rule(ts: Seq<TokenView>, pos: nat, left: ExprView, token: TokenView) -> Step<ExprView>
    decreases remaining(ts, pos), 7nat,
{
    if token.kind != TokenType::Assignment {
        fail(0, ErrorKind::CouldNotParse, token.text)
    } else {
        match left {
            ExprView::Declaration { datatype, identifier } => {
                let value = operand(ts, pos, precedence_of(token.kind), identifier);
                match value.out {
                    Err(_) => value,
                    Ok(e) => done(value.used, ExprView::Assignment { datatype, identifier, value: Box::new(e) }),
                }
            },
            ExprView::Identifier(identifier) => {
                let value = operand(ts, pos, precedence_of(token.kind), identifier);
                match value.out {
                    Err(_) => value,
                    Ok(e) => done(value.used, ExprView::Reassignment { identifier, value: Box::new(e) }),
                }
            },
            _ => fail(0, ErrorKind::ExpectedIdentifier, token.text),
        }
    }
}

/// `(` after a name, the arguments and `)`: a call.
pub open spec fn call_rule(ts: Seq<TokenView>, pos: nat, left: ExprView, token: TokenView) -> Step<ExprView>
    decreases remaining(ts, pos), 7nat,
{
    match left {
        ExprView::Identifier(name) => {
            let arguments = call_args(ts, pos, Seq::empty(), token);
            match arguments.out {
                Err(error) => fail_with(arguments.used, error),
                Ok(args) => done(arguments.used, ExprView::FnCall { name, args }),
            }
        },
        _ => fail(0, ErrorKind::ExpectedIdentifier, token.text),
    }
}

/// An operator between two operands; the right one is parsed at the
/// precedence of the operator, so that operators of one precedence group
/// from the left.
pub open spec fn binop_rule(ts: Seq<TokenView>, pos: nat, left: ExprView, token: TokenView) -> Step<ExprView>
    decreases remaining(ts, pos), 7nat,
{
    let right = operand(ts, pos, precedence_of(token.kind), token.text);
    match right.out {
        Err(_) => right,
        Ok(e) => if binary_operator(token.kind) {
            done(right.used, ExprView::BinOp { left: Box::new(left), op: token.kind, right: Box::new(e) })
        } else {
            fail(right.used, ErrorKind::InvalidOperator, token.text)
        },
    }
}

/// `?` after a condition, a value, `|` and another value.
pub open spec fn ternary_rule(ts: Seq<TokenView>, pos: nat, left: ExprView, token: TokenView) -> Step<ExprView>
    decreases remaining(ts, pos), 7nat,
{
    let first = operand(ts, pos, precedence_of(token.kind), token.text);
    match first.out {
        Err(_) => first,
        Ok(body_true) => match token_at(ts, pos + first.used) {
            None => fail(first.used, ErrorKind::UnexpectedEof, token.text),
            Some(other) => if other.kind != TokenType::TernaryElse {
                fail(first.used + 1, ErrorKind::CouldNotParse, other.text)
            } else {
                let second = operand(ts, pos + first.used + 1, precedence_of(other.kind), token.text);
                match second.out {
                    Err(error) => fail_with(second.used + first.used + 1, error),
                    Ok(body_false) => done(
                        second.used + first.used + 1,
                        ExprView::TernaryIfElse { condition: Box::new(left), body_true: Box::new(body_true), body_false: Box::new(body_false) },
                    ),
                }
            },
        },
    }
}

/// The return type of a function definition and the `{` that opens its body:
/// `->`, a type and `{`, or `{` alone for a function that returns nothing.
pub open spec fn fn_return_type(ts: Seq<TokenView>, pos: nat, token: TokenView) -> Step<Seq<char>> {
    match token_at(ts, pos) {
        None => fail(0, ErrorKind::UnexpectedEof, token.text),
        Some(next) => if next.kind == TokenType::OpenBrace {
            done(1, "nul"@)
        } else if next.kind == TokenType::FnReturnType {
            match token_at(ts, pos + 1) {
                None => fail(1, ErrorKind::UnexpectedEof, token.text),
                Some(datatype) => if datatype.kind != TokenType::Type && datatype.kind != TokenType::Identifier {
                    fail(2, ErrorKind::ExpectedDatatypeKeyword, datatype.text)
                } else {
                    match token_at(ts, pos + 2) {
                        None => fail(2, ErrorKind::UnexpectedEof, token.text),
                        Some(open) => if open.kind != TokenType::OpenBrace {
                            fail(2, ErrorKind::ExpectedOpenBrace, open.text)
                        } else {
                            done(3, datatype.text)
                        },
                    }
                },
            }
        } else {
            fail(0, ErrorKind::ExpectedReturnType, next.text)
        },
    }
}

/// `::` after a name, the arguments, the return type and the body: the
/// definition of a function.
pub open spec fn fn_rule(ts: Seq<TokenView>, pos: nat, left: ExprView, token: TokenView) -> Step<ExprView>
    decreases remaining(ts, pos), 7nat,
{
    match left {
        ExprView::Identifier(identifier) => {
            let arguments = fn_args(ts, pos, Seq::empty());
            match arguments.out {
                Err(error) => fail_with(arguments.used, error),
                Ok(args) => {
                    let returned = fn_return_type(ts, pos + arguments.used, token);
                    match returned.out {
                        Err(error) => fail_with(returned.used + arguments.used, error),
                        Ok(return_type) => {
                            let statements = block(ts, pos + arguments.used + returned.used, Seq::empty(), token.text);
                            match statements.out {
                                Err(error) => fail_with(statements.used + arguments.used + returned.used, error),
                                Ok(body) => done(
                                    statements.used + arguments.used + returned.used,
                                    ExprView::FnDeclaration { identifier, arguments: args, return_type, body },
                                ),
                            }
                        },
                    }
                },
            }
        },
        _ => fail(0, ErrorKind::ExpectedIdentifier, "before function declaration"@),
    }
}

/// The expressions of a whole program from `pos` on, added to `acc`.
pub open spec fn program(ts: Seq<TokenView>, pos: nat, acc: Seq<ExprView>) -> Step<Seq<ExprView>>
    decreases remaining(ts, pos),
{
    match token_at(ts, pos) {
        None => done(0, acc),
        Some(first) => {
            let statement = expression(ts, pos + 1, first, 0);
            match statement.out {
                Err(error) => fail_with(statement.used + 1, error),
                Ok(e) => shift(program(ts, pos + 1 + statement.used, acc.push(e)), 1 + statement.used),
            }
        },
    }
}

} // verus!
