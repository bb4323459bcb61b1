//! The Pratt parser: builds the syntax tree from the tokens.

use vstd::prelude::*;
use crate::error::{Error, ErrorView};
use crate::expression::{Expression, ExprView, exprs_view, fields_view, lemma_exprs_view_push, pairs_view};
use crate::grammar::{
    InfixRule, PrefixRule, block, call_args, climb, expression, infix, infix_rule, init_fields, name_index, operand,
    parse, prefix, prefix_rule, program, put, shift, struct_fields,
};
use crate::infix::{BinOpParselet, FnDeclarationParselet, OpenParenParselet, ReassignmentParselet, TernaryParselet};
use crate::prefix::{
    AssignmentParselet, DatatypeParselet, IdentifierParselet, IfElseParselet, LiteralParselet, ParenParselet,
    ReturnParselet, StructParselet, UnaryOpParselet, UseParselet, WhileParselet,
};
use crate::token::{Token, TokenType, precedence_of};
use crate::tokenizer::Tokenizer;

verus! {

/// Whether the token source went from `before` to `after` by consuming
/// `used` tokens.
pub open spec fn advanced(before: Tokenizer, after: Tokenizer, used: nat) -> bool {
    &&& after.tokens() == before.tokens()
    &&& after.position() == before.position() + used
}

/// Whether a result holds what the statement of it says: the same
/// expression, or the same failure.
pub open spec fn yields(result: Result<Expression, Error>, out: Result<ExprView, ErrorView>) -> bool {
    match result {
        Ok(e) => out == Ok::<ExprView, ErrorView>(e@),
        Err(error) => out == Err::<ExprView, ErrorView>(error@),
    }
}

/// Whether a result holds what the statement of it says: the same
/// expression or none, or the same failure.
pub open spec fn yields_option(result: Result<Option<Expression>, Error>, out: Result<Option<ExprView>, ErrorView>) -> bool {
    match result {
        Ok(Some(e)) => out == Ok::<Option<ExprView>, ErrorView>(Some(e@)),
        Ok(None) => out == Ok::<Option<ExprView>, ErrorView>(None),
        Err(error) => out == Err::<Option<ExprView>, ErrorView>(error@),
    }
}

/// Whether a result holds what the statement of it says: the same
/// expressions, or the same failure.
pub open spec fn yields_list(result: Result<Vec<Expression>, Error>, out: Result<Seq<ExprView>, ErrorView>) -> bool {
    match result {
        Ok(list) => out == Ok::<Seq<ExprView>, ErrorView>(exprs_view(list@)),
        Err(error) => out == Err::<Seq<ExprView>, ErrorView>(error@),
    }
}

/// Whether a result holds what the statement of it says: the same named
/// expressions, or the same failure.
pub open spec fn yields_fields(result: Result<Vec<(String, Expression)>, Error>, out: Result<Seq<(Seq<char>, ExprView)>, ErrorView>) -> bool {
    match result {
        Ok(list) => out == Ok::<Seq<(Seq<char>, ExprView)>, ErrorView>(fields_view(list@)),
        Err(error) => out == Err::<Seq<(Seq<char>, ExprView)>, ErrorView>(error@),
    }
}

/// Whether a result holds what the statement of it says: the same pairs of
/// names, or the same failure.
pub open spec fn yields_pairs(result: Result<Vec<(String, String)>, Error>, out: Result<Seq<(Seq<char>, Seq<char>)>, ErrorView>) -> bool {
    match result {
        Ok(list) => out == Ok::<Seq<(Seq<char>, Seq<char>)>, ErrorView>(pairs_view(list@)),
        Err(error) => out == Err::<Seq<(Seq<char>, Seq<char>)>, ErrorView>(error@),
    }
}

/// Binds `name` to `value` among the named expressions: in place of the
/// first entry of that name, or at the end.
pub fn put_field(entries: &mut Vec<(String, Expression)>, name: String, value: Expression)
    ensures
        fields_view(final(entries)@) == put(fields_view(old(entries)@), name@, value@),
{
    let ghost before = fields_view(entries@);
    let mut i: usize = 0;
    while i < entries.len() && !(entries[i].0 == name)
        invariant
            i <= entries.len(),
            entries@ == old(entries)@,
            before == fields_view(entries@),
            name_index(before, name@, 0) == name_index(before, name@, i as int),
        decreases entries.len() - i,
    {
        i = i + 1;
    }
    if i < entries.len() {
        entries.set(i, (name, value));
    } else {
        entries.push((name, value));
    }
}

/// Binds `name` to `value` among the pairs of names: in place of the first
/// entry of that name, or at the end.
pub fn put_pair(entries: &mut Vec<(String, String)>, name: String, value: String)
    ensures
        pairs_view(final(entries)@) == put(pairs_view(old(entries)@), name@, value@),
{
    let ghost before = pairs_view(entries@);
    let mut i: usize = 0;
    while i < entries.len() && !(entries[i].0 == name)
        invariant
            i <= entries.len(),
            entries@ == old(entries)@,
            before == pairs_view(entries@),
            name_index(before, name@, 0) == name_index(before, name@, i as int),
        decreases entries.len() - i,
    {
        i = i + 1;
    }
    if i < entries.len() {
        entries.set(i, (name, value));
    } else {
        entries.push((name, value));
    }
}

/// The parser. Its rules are fixed: `prefix_rule` and `infix_rule` give the
/// rule of each kind of token.
#[derive(Clone, Copy, Debug)]
pub struct Parser {}

/// The prefix rule of a kind of token.
pub fn prefix_rule_of(kind: TokenType) -> (rule: Option<PrefixRule>)
    ensures
        rule == prefix_rule(kind),
{
    match kind {
        TokenType::Type => Some(PrefixRule::Datatype),
        TokenType::Identifier => Some(PrefixRule::Identifier),
        TokenType::Ref => Some(PrefixRule::Identifier),
        TokenType::Let => Some(PrefixRule::Assignment),
        TokenType::While => Some(PrefixRule::While),
        TokenType::If => Some(PrefixRule::IfElse),
        TokenType::Int => Some(PrefixRule::Literal),
        TokenType::Float => Some(PrefixRule::Literal),
        TokenType::Bool => Some(PrefixRule::Literal),
        TokenType::SingleQuote => Some(PrefixRule::Literal),
        TokenType::OpenParen => Some(PrefixRule::Paren),
        TokenType::Minus => Some(PrefixRule::UnaryOp),
        TokenType::Not => Some(PrefixRule::UnaryOp),
        TokenType::Struct => Some(PrefixRule::Struct),
        TokenType::Return => Some(PrefixRule::Return),
        TokenType::Use => Some(PrefixRule::Use),
        _ => None,
    }
}

/// The infix rule of a kind of token.
pub fn infix_rule_of(kind: TokenType) -> (rule: Option<InfixRule>)
    ensures
        rule == infix_rule(kind),
{
    match kind {
        TokenType::Assignment => Some(InfixRule::Reassignment),
        TokenType::OpenParen => Some(InfixRule::Call),
        TokenType::Plus => Some(InfixRule::BinOp),
        TokenType::Minus => Some(InfixRule::BinOp),
        TokenType::Multiply => Some(InfixRule::BinOp),
        TokenType::Divide => Some(InfixRule::BinOp),
        TokenType::Greater => Some(InfixRule::BinOp),
        TokenType::Less => Some(InfixRule::BinOp),
        TokenType::GreaterEqual => Some(InfixRule::BinOp),
        TokenType::LessEqual => Some(InfixRule::BinOp),
        TokenType::Equal => Some(InfixRule::BinOp),
        TokenType::TernaryIf => Some(InfixRule::Ternary),
        TokenType::FnDeclaration => Some(InfixRule::FnDeclaration),
        _ => None,
    }
}

impl Parser {
    /// A parser.
    pub fn new() -> (parser: Self) {
        Self {  }
    }

    /// The precedence of the next token; 0 where no token is left.
    pub fn get_precedence(&self, tokenizer: &Tokenizer) -> (p: u8)
        ensures
            p == (match crate::tokenizer::token_at(tokenizer.tokens(), tokenizer.position()) {
                Some(token) => precedence_of(token.kind),
                None => 0,
            }),
    {
        match tokenizer.peek() {
            Some(t) => t.get_type().precedence(),
            None => 0,
        }
    }

    /// Parses one expression: the left side that the prefix rule of the
    /// first token gives, extended by the infix rule of each following token
    /// whose precedence is greater than `precedence`. `None` where no token is left.
    pub fn parse(&self, precedence: u8, tokenizer: &mut Tokenizer) -> (r: Result<Option<Expression>, Error>)
        ensures
            advanced(*old(tokenizer), *final(tokenizer), parse(old(tokenizer).tokens(), old(tokenizer).position(), precedence as nat).used),
            yields_option(r, parse(old(tokenizer).tokens(), old(tokenizer).position(), precedence as nat).out),
        decreases old(tokenizer).left(), 1nat,
    {
        let token = match tokenizer.next() {
            Some(t) => t,
            None => {
                return Ok(None);
            },
        };
        match self.expression(precedence, tokenizer, token) {
            Ok(e) => Ok(Some(e)),
            Err(error) => Err(error),
        }
    }

    /// Parses one expression where one is required.
    pub fn operand(&self, precedence: u8, tokenizer: &mut Tokenizer, near: &String) -> (r: Result<Expression, Error>)
        ensures
            advanced(*old(tokenizer), *final(tokenizer), operand(old(tokenizer).tokens(), old(tokenizer).position(), precedence as nat, near@).used),
            yields(r, operand(old(tokenizer).tokens(), old(tokenizer).position(), precedence as nat, near@).out),
        decreases old(tokenizer).left(), 2nat,
    {
        match self.parse(precedence, tokenizer) {
            Ok(Some(e)) => Ok(e),
            Ok(None) => Err(Error::CouldNotParse(near.clone())),
            Err(error) => Err(error),
        }
    }

    /// Parses the expression that starts with the token `first`, which has
    /// just been consumed.
    #[verifier::loop_isolation(false)]
    pub fn expression(&self, precedence: u8, tokenizer: &mut Tokenizer, first: Token) -> (r: Result<Expression, Error>)
        ensures
            advanced(*old(tokenizer), *final(tokenizer), expression(old(tokenizer).tokens(), old(tokenizer).position(), first@, precedence as nat).used),
            yields(r, expression(old(tokenizer).tokens(), old(tokenizer).position(), first@, precedence as nat).out),
        decreases old(tokenizer).left(), 12nat,
    {
        let ghost ts = tokenizer.tokens();
        let rule = match prefix_rule_of(first.get_type()) {
            Some(rule) => rule,
            None => {
                return Err(Error::CouldNotParse(first.get_value()));
            },
        };
        let mut left = self.prefix(rule, tokenizer, first)?;
        let ghost begun = tokenizer.position();
        let ghost first_left = left@;
        loop
            invariant
                tokenizer.tokens() == ts,
                begun <= tokenizer.position(),
                climb(ts, begun, precedence as nat, first_left) == shift(climb(ts, tokenizer.position(), precedence as nat, left@), (tokenizer.position() - begun) as nat),
            decreases tokenizer.left(),
        {
            let token = match tokenizer.peek() {
                Some(t) => t,
                None => {
                    return Ok(left);
                },
            };
            if precedence >= token.get_type().precedence() {
                return Ok(left);
            }
            let rule = match infix_rule_of(token.get_type()) {
                Some(rule) => rule,
                None => {
                    return Ok(left);
                },
            };
            tokenizer.next();
            left = self.infix(rule, tokenizer, left, token)?;
        }
    }

    /// Applies a prefix rule to the token `token`, which has just been consumed.
    pub fn prefix(&self, rule: PrefixRule, tokenizer: &mut Tokenizer, token: Token) -> (r: Result<Expression, Error>)
        ensures
            advanced(*old(tokenizer), *final(tokenizer), prefix(rule, old(tokenizer).tokens(), old(tokenizer).position(), token@).used),
            yields(r, prefix(rule, old(tokenizer).tokens(), old(tokenizer).position(), token@).out),
        decreases old(tokenizer).left(), 10nat,
    {
        match rule {
            PrefixRule::Datatype => DatatypeParselet {}.parse(self, tokenizer, token),
            PrefixRule::Identifier => IdentifierParselet {}.parse(self, tokenizer, token),
            PrefixRule::Assignment => AssignmentParselet {}.parse(self, tokenizer, token),
            PrefixRule::Literal => LiteralParselet {}.parse(self, tokenizer, token),
            PrefixRule::Paren => ParenParselet {}.parse(self, tokenizer, token),
            PrefixRule::UnaryOp => UnaryOpParselet {}.parse(self, tokenizer, token),
            PrefixRule::While => WhileParselet {}.parse(self, tokenizer, token),
            PrefixRule::IfElse => IfElseParselet {}.parse(self, tokenizer, token),
            PrefixRule::Struct => StructParselet {}.parse(self, tokenizer, token),
            PrefixRule::Return => ReturnParselet {}.parse(self, tokenizer, token),
            PrefixRule::Use => UseParselet {}.parse(self, tokenizer, token),
        }
    }

    /// Applies an infix rule to the expression `left` and the token `token`,
    /// which has just been consumed.
    pub fn infix(&self, rule: InfixRule, tokenizer: &mut Tokenizer, left: Expression, token: Token) -> (r: Result<Expression, Error>)
        ensures
            advanced(*old(tokenizer), *final(tokenizer), infix(rule, old(tokenizer).tokens(), old(tokenizer).position(), left@, token@).used),
            yields(r, infix(rule, old(tokenizer).tokens(), old(tokenizer).position(), left@, token@).out),
        decreases old(tokenizer).left(), 10nat,
    {
        match rule {
            InfixRule::Reassignment => ReassignmentParselet {}.parse(self, tokenizer, left, token),
            InfixRule::Call => OpenParenParselet {}.parse(self, tokenizer, left, token),
            InfixRule::BinOp => BinOpParselet {}.parse(self, tokenizer, left, token),
            InfixRule::Ternary => TernaryParselet {}.parse(self, tokenizer, left, token),
            InfixRule::FnDeclaration => FnDeclarationParselet {}.parse(self, tokenizer, left, token),
        }
    }

    /// Parses the statements of a block up to the `}` that closes it.
    #[verifier::loop_isolation(false)]
    pub fn block(&self, tokenizer: &mut Tokenizer, near: &String) -> (r: Result<Vec<Expression>, Error>)
        ensures
            advanced(*old(tokenizer), *final(tokenizer), block(old(tokenizer).tokens(), old(tokenizer).position(), Seq::empty(), near@).used),
            yields_list(r, block(old(tokenizer).tokens(), old(tokenizer).position(), Seq::empty(), near@).out),
        decreases old(tokenizer).left(), 6nat,
    {
        let ghost ts = tokenizer.tokens();
        let ghost start = tokenizer.position();
        let mut body: Vec<Expression> = Vec::new();
        assert(exprs_view(body@) =~= Seq::<ExprView>::empty());
        loop
            invariant
                tokenizer.tokens() == ts,
                start <= tokenizer.position(),
                block(ts, start, Seq::empty(), near@) == shift(block(ts, tokenizer.position(), exprs_view(body@), near@), (tokenizer.position() - start) as nat),
            decreases tokenizer.left(),
        {
            let first = match tokenizer.next() {
                Some(t) => t,
                None => {
                    return Err(Error::UnexpectedEof(near.clone()));
                },
            };
            if first.check(TokenType::CloseBrace) {
                return Ok(body);
            }
            let statement = self.expression(0, tokenizer, first)?;
            proof {
                lemma_exprs_view_push(body@, statement);
            }
            body.push(statement);
        }
    }

    /// Parses the arguments of a call up to the `)` that closes it; `open` is
    /// the `(` that opened it.
    #[verifier::loop_isolation(false)]
    pub fn call_args(&self, tokenizer: &mut Tokenizer, open: &Token) -> (r: Result<Vec<Expression>, Error>)
        ensures
            advanced(*old(tokenizer), *final(tokenizer), call_args(old(tokenizer).tokens(), old(tokenizer).position(), Seq::empty(), open@).used),
            yields_list(r, call_args(old(tokenizer).tokens(), old(tokenizer).position(), Seq::empty(), open@).out),
        decreases old(tokenizer).left(), 6nat,
    {
        let ghost ts = tokenizer.tokens();
        let ghost start = tokenizer.position();
        let mut args: Vec<Expression> = Vec::new();
        assert(exprs_view(args@) =~= Seq::<ExprView>::empty());
        loop
            invariant
                tokenizer.tokens() == ts,
                start <= tokenizer.position(),
                call_args(ts, start, Seq::empty(), open@) == shift(call_args(ts, tokenizer.position(), exprs_view(args@), open@), (tokenizer.position() - start) as nat),
            decreases tokenizer.left(),
        {
            let first = match tokenizer.next() {
                Some(t) => t,
                None => {
                    return Err(Error::UnexpectedEof(open.get_value()));
                },
            };
            if first.check(TokenType::CloseParen) {
                return Ok(args);
            }
            let argument = self.expression(0, tokenizer, first)?;
            proof {
                lemma_exprs_view_push(args@, argument);
            }
            args.push(argument);
        }
    }

    /// Parses the fields of a struct instance up to the `}` that closes it.
    #[verifier::loop_isolation(false)]
    pub fn init_fields(&self, tokenizer: &mut Tokenizer, near: &String) -> (r: Result<Vec<(String, Expression)>, Error>)
        ensures
            advanced(*old(tokenizer), *final(tokenizer), init_fields(old(tokenizer).tokens(), old(tokenizer).position(), Seq::empty(), near@).used),
            yields_fields(r, init_fields(old(tokenizer).tokens(), old(tokenizer).position(), Seq::empty(), near@).out),
        decreases old(tokenizer).left(), 6nat,
    {
        let ghost ts = tokenizer.tokens();
        let ghost start = tokenizer.position();
        let mut variables: Vec<(String, Expression)> = Vec::new();
        assert(fields_view(variables@) =~= Seq::<(Seq<char>, ExprView)>::empty());
        loop
            invariant
                tokenizer.tokens() == ts,
                start <= tokenizer.position(),
                init_fields(ts, start, Seq::empty(), near@) == shift(init_fields(ts, tokenizer.position(), fields_view(variables@), near@), (tokenizer.position() - start) as nat),
            decreases tokenizer.left(),
        {
            let name = match tokenizer.next() {
                Some(t) => t,
                None => {
                    return Err(Error::UnexpectedEof(near.clone()));
                },
            };
            if name.check(TokenType::CloseBrace) {
                return Ok(variables);
            }
            let varname = name.get_value();
            let value = self.operand(0, tokenizer, &varname)?;
            put_field(&mut variables, varname, value);
        }
    }

    /// Parses the fields of a struct definition up to the `}` that closes it.
    #[verifier::loop_isolation(false)]
    pub fn struct_fields(&self, tokenizer: &mut Tokenizer, near: &String) -> (r: Result<Vec<(String, String)>, Error>)
        ensures
            advanced(*old(tokenizer), *final(tokenizer), struct_fields(old(tokenizer).tokens(), old(tokenizer).position(), Seq::empty(), near@).used),
            yields_pairs(r, struct_fields(old(tokenizer).tokens(), old(tokenizer).position(), Seq::empty(), near@).out),
        decreases old(tokenizer).left(), 6nat,
    {
        let ghost ts = tokenizer.tokens();
        let ghost start = tokenizer.position();
        let mut body: Vec<(String, String)> = Vec::new();
        assert(pairs_view(body@) =~= Seq::<(Seq<char>, Seq<char>)>::empty());
        loop
            invariant
                tokenizer.tokens() == ts,
                start <= tokenizer.position(),
                struct_fields(ts, start, Seq::empty(), near@) == shift(struct_fields(ts, tokenizer.position(), pairs_view(body@), near@), (tokenizer.position() - start) as nat),
            decreases tokenizer.left(),
        {
            let first = match tokenizer.next() {
                Some(t) => t,
                None => {
                    return Err(Error::UnexpectedEof(near.clone()));
                },
            };
            if first.check(TokenType::CloseBrace) {
                return Ok(body);
            }
            let near_field = first.get_value();
            let field = self.expression(0, tokenizer, first)?;
            if let Expression::Declaration { datatype, identifier } = field {
                put_pair(&mut body, identifier, datatype);
            } else {
                return Err(Error::CouldNotParse(near_field));
            }
        }
    }

    /// Parses a whole program: expressions at precedence 0 until no token is left.
    #[verifier::loop_isolation(false)]
    pub fn parse_all(&self, tokenizer: &mut Tokenizer) -> (r: Result<Vec<Expression>, Error>)
        ensures
            advanced(*old(tokenizer), *final(tokenizer), program(old(tokenizer).tokens(), old(tokenizer).position(), Seq::empty()).used),
            yields_list(r, program(old(tokenizer).tokens(), old(tokenizer).position(), Seq::empty()).out),
    {
        let ghost ts = tokenizer.tokens();
        let ghost start = tokenizer.position();
        let mut expressions: Vec<Expression> = Vec::new();
        assert(exprs_view(expressions@) =~= Seq::<ExprView>::empty());
        loop
            invariant
                tokenizer.tokens() == ts,
                start <= tokenizer.position(),
                program(ts, start, Seq::empty()) == shift(program(ts, tokenizer.position(), exprs_view(expressions@)), (tokenizer.position() - start) as nat),
            decreases tokenizer.left(),
        {
            let e = match self.parse(0, tokenizer)? {
                Some(e) => e,
                None => {
                    return Ok(expressions);
                },
            };
            proof {
                lemma_exprs_view_push(expressions@, e);
            }
            expressions.push(e);
        }
    }
}

} // verus!
