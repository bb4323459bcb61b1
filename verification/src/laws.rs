//! Laws that relate the parts of the compiler to each other.

use vstd::prelude::*;
use crate::decimal::{float_literal, int_literal, lemma_int_text_reads_back};
use crate::emission::{Emitted, RootView, c_type, emit, emit_args, emit_fields, print_statements, variable_name};
use crate::error::{ErrorKind, ErrorView, failure};
use crate::expression::ExprView;
use crate::grammar::{
    InfixRule, PrefixRule, binary_operator, call_args, climb, done, expression, infix, infix_rule, literal_rule, operand, paren_rule, parse, prefix,
    program,
};
use crate::scope::{EnvView, Kind, LayoutView, env_register, field_kind, kind_of, print_call, resolve, resolve_struct, well_formed};
use crate::text::count;
use crate::token::{TokenType, TokenView, precedence_of};
use crate::tokenizer::{remaining, token_at};

verus! {

/// What a literal denotes in C is what it denotes in the source: the text
/// emitted for a parsed integer literal reads back as the same number; a
/// floating-point literal and a boolean are emitted as they were written; a
/// character is emitted between two single quotes. Emitting a literal
/// leaves the environment as it was.
pub proof fn lemma_literal_round_trip(ts: Seq<TokenView>, pos: nat, token: TokenView, env: EnvView, scope: nat, in_fn: bool, root: RootView)
    requires
        literal_rule(ts, pos, token).out is Ok,
    ensures
        emit(literal_rule(ts, pos, token).out->Ok_0, env, scope, in_fn, root).env == env,
        emit(literal_rule(ts, pos, token).out->Ok_0, env, scope, in_fn, root).out is Ok,
        match literal_rule(ts, pos, token).out->Ok_0 {
            ExprView::Int(value) => int_literal(token.text) == Some(value)
                && int_literal(emit(ExprView::Int(value), env, scope, in_fn, root).out->Ok_0) == Some(value),
            ExprView::Float(text) => text == token.text && float_literal(text)
                && emit(ExprView::Float(text), env, scope, in_fn, root).out == Ok::<Seq<char>, ErrorView>(token.text),
            ExprView::Bool(b) => emit(ExprView::Bool(b), env, scope, in_fn, root).out == Ok::<Seq<char>, ErrorView>(token.text),
            ExprView::Char(c) => ts[pos as int].text == seq![c]
                && emit(ExprView::Char(c), env, scope, in_fn, root).out == Ok::<Seq<char>, ErrorView>("'"@ + ts[pos as int].text + "'"@),
            _ => false,
        },
{
    match literal_rule(ts, pos, token).out->Ok_0 {
        ExprView::Int(value) => {
            lemma_int_text_reads_back(value);
        },
        ExprView::Char(c) => {
            assert(ts[pos as int].text =~= seq![c]);
            assert("'"@.push(c) =~= "'"@ + seq![c]);
        },
        _ => {},
    }
}

/// A literal as the value of a variable of a scalar type is emitted as the C
/// declaration of that variable with the text of the literal after `=`.
pub proof fn lemma_literal_assignment(
    ts: Seq<TokenView>,
    pos: nat,
    token: TokenView,
    datatype: Seq<char>,
    identifier: Seq<char>,
    env: EnvView,
    scope: nat,
    in_fn: bool,
    root: RootView,
)
    requires
        literal_rule(ts, pos, token).out is Ok,
        !(kind_of(datatype) is Struct),
    ensures
        emit(ExprView::Assignment { datatype, identifier, value: Box::new(literal_rule(ts, pos, token).out->Ok_0) }, env, scope, in_fn, root).out
            == Ok::<Seq<char>, ErrorView>(
            c_type(datatype, true) + " "@ + variable_name(identifier, in_fn) + " = "@ + emit(
                literal_rule(ts, pos, token).out->Ok_0,
                env,
                scope,
                in_fn,
                root,
            ).out->Ok_0,
        ),
{
    let literal = literal_rule(ts, pos, token).out->Ok_0;
    let declared = env_register(env, scope, identifier, kind_of(datatype));
    lemma_literal_round_trip(ts, pos, token, env, scope, in_fn, root);
    lemma_literal_round_trip(ts, pos, token, declared, scope, in_fn, root);
    assert(emit(literal, declared, scope, in_fn, root).out == emit(literal, env, scope, in_fn, root).out);
}

/// A variable declared in a scope is seen from that scope with the kind it
/// was declared with.
pub proof fn lemma_declared_is_seen(env: EnvView, scope: nat, name: Seq<char>, kind: Kind)
    requires
        scope < env.len(),
    ensures
        resolve(env_register(env, scope, name, kind), scope, name) == Some(kind),
{
}

/// Declaring a variable changes what is seen of no other name, from any scope.
pub proof fn lemma_other_names_unchanged(env: EnvView, scope: nat, name: Seq<char>, kind: Kind, from: nat, other: Seq<char>)
    requires
        other != name,
    ensures
        resolve(env_register(env, scope, name, kind), from, other) == resolve(env, from, other),
    decreases from,
{
    let after = env_register(env, scope, name, kind);
    if from < env.len() {
        assert(after[from as int].parent == env[from as int].parent);
        assert(after[from as int].variables.contains_key(other) == env[from as int].variables.contains_key(other));
        match env[from as int].parent {
            Some(p) => {
                if p < from {
                    lemma_other_names_unchanged(env, scope, name, kind, p, other);
                }
            },
            None => {},
        }
    }
}

/// Whether the scope `ancestor` is `from` or stands on the way from `from`
/// up to the outermost scope.
pub open spec fn encloses(env: EnvView, ancestor: nat, from: nat) -> bool
    decreases from,
{
    if from >= env.len() {
        false
    } else if ancestor == from {
        true
    } else {
        match env[from as int].parent {
            Some(p) => p < from && encloses(env, ancestor, p),
            None => false,
        }
    }
}

/// A declaration is seen only from the scope it was made in and the scopes
/// inside it: two blocks under one parent never see each other's variables.
pub proof fn lemma_unseen_from_outside(env: EnvView, scope: nat, name: Seq<char>, kind: Kind, from: nat)
    requires
        !encloses(env, scope, from),
    ensures
        resolve(env_register(env, scope, name, kind), from, name) == resolve(env, from, name),
    decreases from,
{
    let after = env_register(env, scope, name, kind);
    if from < env.len() {
        assert(after[from as int] == env[from as int]);
        match env[from as int].parent {
            Some(p) => {
                if p < from {
                    lemma_unseen_from_outside(env, scope, name, kind, p);
                }
            },
            None => {},
        }
    }
}

/// The nearest declaration wins. With a scope `inner` whose parent is
/// `middle`, whose parent is `outer`, which has none: a variable declared
/// only in `outer` is seen from `inner` with the kind it has there; once
/// `middle` declares it too, `inner` sees the kind it has in `middle`; and a
/// name that `outer` does not declare is not seen from `outer`.
pub proof fn lemma_shadowing(env: EnvView, outer: nat, middle: nat, inner: nat, name: Seq<char>, first: Kind, second: Kind, unknown: Seq<char>)
    requires
        well_formed(env),
        inner < env.len(),
        env[inner as int].parent == Some(middle),
        env[middle as int].parent == Some(outer),
        env[outer as int].parent is None,
        !env[inner as int].variables.contains_key(name),
        !env[middle as int].variables.contains_key(name),
        !env[outer as int].variables.contains_key(unknown),
    ensures
        resolve(env_register(env, outer, name, first), inner, name) == Some(first),
        resolve(env_register(env_register(env, outer, name, first), middle, name, second), inner, name) == Some(second),
        resolve(env, outer, unknown) is None,
{
    assert(middle < inner && outer < middle);
    let one = env_register(env, outer, name, first);
    assert(resolve(one, outer, name) == Some(first));
    assert(resolve(one, middle, name) == Some(first));
    assert(resolve(one, inner, name) == Some(first));
    let two = env_register(one, middle, name, second);
    assert(resolve(two, middle, name) == Some(second));
    assert(resolve(two, inner, name) == Some(second));
}

/// A new value for a variable that no scope from the present one upwards
/// declares is refused, with the environment left as it was.
pub proof fn lemma_undeclared_reassignment(identifier: Seq<char>, value: ExprView, env: EnvView, scope: nat, in_fn: bool, root: RootView)
    requires
        resolve(env, scope, identifier) is None,
    ensures
        emit(ExprView::Reassignment { identifier, value: Box::new(value) }, env, scope, in_fn, root) == (Emitted {
            env,
            out: Err(failure(ErrorKind::UndeclaredVariable, identifier)),
        }),
{
}

/// A call of `print` fails as soon as one of its arguments is a name that no
/// scope from the present one upwards declares, and leaves the environment
/// as it was. Where that name is the first argument, the failure names it.
pub proof fn lemma_undeclared_print(args: Seq<ExprView>, at: nat, name: Seq<char>, env: EnvView, scope: nat, in_fn: bool, root: RootView)
    requires
        at < args.len(),
        args[at as int] == ExprView::Identifier(name),
        resolve(env, scope, name) is None,
    ensures
        emit(ExprView::FnCall { name: "print"@, args }, env, scope, in_fn, root).env == env,
        emit(ExprView::FnCall { name: "print"@, args }, env, scope, in_fn, root).out is Err,
        at == 0 ==> emit(ExprView::FnCall { name: "print"@, args }, env, scope, in_fn, root).out == Err::<Seq<char>, ErrorView>(
            failure(ErrorKind::UndeclaredVariable, name),
        ),
{
    lemma_print_fails(args, 0, at, name, env, scope, in_fn, Seq::empty(), false);
}

proof fn lemma_print_fails(args: Seq<ExprView>, i: nat, at: nat, name: Seq<char>, env: EnvView, scope: nat, in_fn: bool, acc: Seq<char>, any: bool)
    requires
        i <= at < args.len(),
        args[at as int] == ExprView::Identifier(name),
        resolve(env, scope, name) is None,
    ensures
        print_statements(args, i, env, scope, in_fn, acc, any) is Err,
        i == at ==> print_statements(args, i, env, scope, in_fn, acc, any) == Err::<Seq<char>, ErrorView>(failure(ErrorKind::UndeclaredVariable, name)),
    decreases at - i,
{
    if i < at {
        match args[i as int] {
            ExprView::Identifier(id) => match resolve(env, scope, id) {
                Some(Kind::Struct(_)) => {},
                Some(kind) => {
                    lemma_print_fails(
                        args,
                        i + 1,
                        at,
                        name,
                        env,
                        scope,
                        in_fn,
                        (if any { acc + ";\n"@ } else { acc }) + print_call(kind, variable_name(id, in_fn)),
                        true,
                    );
                },
                None => {},
            },
            _ => {
                lemma_print_fails(args, i + 1, at, name, env, scope, in_fn, acc, any);
            },
        }
    }
}

/// An argument of a call that is a bare name is passed by address: the call
/// of a plain function with one such argument is the function, `(&`, the
/// name and `)`. The name need not be declared, and the environment stays as
/// it was.
pub proof fn lemma_name_passed_by_address(function: Seq<char>, argument: Seq<char>, env: EnvView, scope: nat, in_fn: bool, root: RootView)
    requires
        function != "print"@,
        count(function, '.') == 0,
    ensures
        emit(ExprView::FnCall { name: function, args: seq![ExprView::Identifier(argument)] }, env, scope, in_fn, root) == (Emitted {
            env,
            out: Ok(function + "("@ + "&"@ + argument + ")"@),
        }),
{
    let args = seq![ExprView::Identifier(argument)];
    let head = function + "("@;
    let passed = head + "&"@ + argument + Seq::<char>::empty();
    assert(args[0] == ExprView::Identifier(argument));
    assert(emit_args(args, 1, env, scope, in_fn, root, passed) == (Emitted { env, out: Ok(passed + ")"@) }));
    assert(emit_args(args, 0, env, scope, in_fn, root, head) == emit_args(args, 1, env, scope, in_fn, root, passed));
    assert(passed + ")"@ =~= function + "("@ + "&"@ + argument + ")"@);
}

/// A name that is no reference.
pub open spec fn plain_name(text: Seq<char>) -> TokenView {
    TokenView { text, kind: TokenType::Identifier }
}

/// Whether a text does not start with the sigil of a reference.
pub open spec fn no_sigil(text: Seq<char>) -> bool {
    text.len() == 0 || text[0] != '&'
}

/// The operator applied to two expressions.
pub open spec fn binary(left: ExprView, op: TokenType, right: ExprView) -> ExprView {
    ExprView::BinOp { left: Box::new(left), op, right: Box::new(right) }
}

/// A parse of a whole program that succeeds has consumed every token.
pub proof fn lemma_program_consumes_all(ts: Seq<TokenView>, pos: nat, acc: Seq<ExprView>)
    requires
        program(ts, pos, acc).out is Ok,
    ensures
        pos + program(ts, pos, acc).used >= ts.len(),
    decreases remaining(ts, pos),
{
    match token_at(ts, pos) {
        None => {},
        Some(first) => {
            let statement = expression(ts, pos + 1, first, 0);
            match statement.out {
                Err(_) => {},
                Ok(e) => {
                    lemma_program_consumes_all(ts, pos + 1 + statement.used, acc.push(e));
                },
            }
        },
    }
}

/// An expression that `parse` yields has consumed at least one token.
pub proof fn lemma_parse_consumes(ts: Seq<TokenView>, pos: nat, precedence: nat)
    ensures
        parse(ts, pos, precedence).out matches Ok(Some(_)) ==> parse(ts, pos, precedence).used >= 1,
        parse(ts, pos, precedence).out matches Ok(None) ==> parse(ts, pos, precedence).used == 0 && pos >= ts.len(),
{
}

/// Of two operators in a row the one that binds tighter keeps the operand
/// between them, and of two that bind equally the first one does: the tokens
/// `a op1 b op2 c` are `a op1 (b op2 c)` where `op2` has the greater
/// precedence, and `(a op1 b) op2 c` otherwise.
pub proof fn lemma_two_operators(a: Seq<char>, first: TokenView, b: Seq<char>, second: TokenView, c: Seq<char>)
    requires
        no_sigil(a),
        no_sigil(b),
        no_sigil(c),
        binary_operator(first.kind),
        binary_operator(second.kind),
    ensures
        parse(seq![plain_name(a), first, plain_name(b), second, plain_name(c)], 0, 0) == done(
            5,
            Some(
                if precedence_of(first.kind) < precedence_of(second.kind) {
                    binary(ExprView::Identifier(a), first.kind, binary(ExprView::Identifier(b), second.kind, ExprView::Identifier(c)))
                } else {
                    binary(binary(ExprView::Identifier(a), first.kind, ExprView::Identifier(b)), second.kind, ExprView::Identifier(c))
                },
            ),
        ),
{
    let ts = seq![plain_name(a), first, plain_name(b), second, plain_name(c)];
    let low = precedence_of(first.kind);
    let high = precedence_of(second.kind);
    assert(infix_rule(first.kind) == Some(InfixRule::BinOp) && infix_rule(second.kind) == Some(InfixRule::BinOp));
    assert(low > 0 && high > 0);
    assert(prefix(PrefixRule::Identifier, ts, 1, plain_name(a)) == done(0, ExprView::Identifier(a)));
    assert(prefix(PrefixRule::Identifier, ts, 3, plain_name(b)) == done(0, ExprView::Identifier(b)));
    assert(prefix(PrefixRule::Identifier, ts, 5, plain_name(c)) == done(0, ExprView::Identifier(c)));
    assert(climb(ts, 5, high, ExprView::Identifier(c)) == done(0, ExprView::Identifier(c)));
    assert(expression(ts, 5, plain_name(c), high) == done(0, ExprView::Identifier(c)));
    assert(parse(ts, 4, high) == done(1, Some(ExprView::Identifier(c))));
    assert(operand(ts, 4, high, second.text) == done(1, ExprView::Identifier(c)));
    if low < high {
        let inner = binary(ExprView::Identifier(b), second.kind, ExprView::Identifier(c));
        let outer = binary(ExprView::Identifier(a), first.kind, inner);
        assert(infix(InfixRule::BinOp, ts, 4, ExprView::Identifier(b), second) == done(1, inner));
        assert(climb(ts, 5, low, inner) == done(0, inner));
        assert(climb(ts, 3, low, ExprView::Identifier(b)) == done(2, inner));
        assert(expression(ts, 3, plain_name(b), low) == done(2, inner));
        assert(parse(ts, 2, low) == done(3, Some(inner)));
        assert(operand(ts, 2, low, first.text) == done(3, inner));
        assert(infix(InfixRule::BinOp, ts, 2, ExprView::Identifier(a), first) == done(3, outer));
        assert(climb(ts, 5, 0, outer) == done(0, outer));
        assert(climb(ts, 1, 0, ExprView::Identifier(a)) == done(4, outer));
        assert(expression(ts, 1, plain_name(a), 0) == done(4, outer));
    } else {
        let inner = binary(ExprView::Identifier(a), first.kind, ExprView::Identifier(b));
        let outer = binary(inner, second.kind, ExprView::Identifier(c));
        assert(climb(ts, 3, low, ExprView::Identifier(b)) == done(0, ExprView::Identifier(b)));
        assert(expression(ts, 3, plain_name(b), low) == done(0, ExprView::Identifier(b)));
        assert(parse(ts, 2, low) == done(1, Some(ExprView::Identifier(b))));
        assert(operand(ts, 2, low, first.text) == done(1, ExprView::Identifier(b)));
        assert(infix(InfixRule::BinOp, ts, 2, ExprView::Identifier(a), first) == done(1, inner));
        assert(infix(InfixRule::BinOp, ts, 4, inner, second) == done(1, outer));
        assert(climb(ts, 5, 0, outer) == done(0, outer));
        assert(climb(ts, 3, 0, inner) == done(2, outer));
        assert(climb(ts, 1, 0, ExprView::Identifier(a)) == done(4, outer));
        assert(expression(ts, 1, plain_name(a), 0) == done(4, outer));
    }
}

/// A group holds a whole expression: the tokens `( a op b )` are the
/// operation itself, without a node for the group, and the `)` is consumed.
pub proof fn lemma_group_holds_an_operation(open: Seq<char>, a: Seq<char>, op: TokenView, b: Seq<char>, close: Seq<char>)
    requires
        no_sigil(a),
        no_sigil(b),
        binary_operator(op.kind),
    ensures
        parse(
            seq![
                TokenView { text: open, kind: TokenType::OpenParen },
                plain_name(a),
                op,
                plain_name(b),
                TokenView { text: close, kind: TokenType::CloseParen },
            ],
            0,
            0,
        ) == done(5, Some(binary(ExprView::Identifier(a), op.kind, ExprView::Identifier(b)))),
{
    let left = TokenView { text: open, kind: TokenType::OpenParen };
    let right = TokenView { text: close, kind: TokenType::CloseParen };
    let ts = seq![left, plain_name(a), op, plain_name(b), right];
    let own = precedence_of(op.kind);
    let whole = binary(ExprView::Identifier(a), op.kind, ExprView::Identifier(b));
    assert(infix_rule(op.kind) == Some(InfixRule::BinOp) && own > 0);
    assert(prefix(PrefixRule::Identifier, ts, 4, plain_name(b)) == done(0, ExprView::Identifier(b)));
    assert(climb(ts, 4, own, ExprView::Identifier(b)) == done(0, ExprView::Identifier(b)));
    assert(expression(ts, 4, plain_name(b), own) == done(0, ExprView::Identifier(b)));
    assert(parse(ts, 3, own) == done(1, Some(ExprView::Identifier(b))));
    assert(operand(ts, 3, own, op.text) == done(1, ExprView::Identifier(b)));
    assert(infix(InfixRule::BinOp, ts, 3, ExprView::Identifier(a), op) == done(1, whole));
    assert(climb(ts, 4, 0, whole) == done(0, whole));
    assert(climb(ts, 2, 0, ExprView::Identifier(a)) == done(2, whole));
    assert(prefix(PrefixRule::Identifier, ts, 2, plain_name(a)) == done(0, ExprView::Identifier(a)));
    assert(expression(ts, 2, plain_name(a), 0) == done(2, whole));
    assert(parse(ts, 1, 0) == done(3, Some(whole)));
    assert(operand(ts, 1, 0, open) == done(3, whole));
    assert(prefix(PrefixRule::Paren, ts, 1, left) == done(4, whole));
    assert(climb(ts, 5, 0, whole) == done(0, whole));
    assert(expression(ts, 1, left, 0) == done(4, whole));
}

/// The group rule reads up to its `)` and no further: after `(`, the tokens
/// `a op b )` are the operation, whatever tokens follow the `)`.
pub proof fn lemma_group_ends_at_its_close(open: TokenView, a: Seq<char>, op: TokenView, b: Seq<char>, close: Seq<char>, rest: Seq<TokenView>)
    requires
        open.kind == TokenType::OpenParen,
        no_sigil(a),
        no_sigil(b),
        binary_operator(op.kind),
    ensures
        paren_rule(seq![plain_name(a), op, plain_name(b), TokenView { text: close, kind: TokenType::CloseParen }] + rest, 0, open) == done(
            4,
            binary(ExprView::Identifier(a), op.kind, ExprView::Identifier(b)),
        ),
{
    let right = TokenView { text: close, kind: TokenType::CloseParen };
    let ts = seq![plain_name(a), op, plain_name(b), right] + rest;
    let own = precedence_of(op.kind);
    let whole = binary(ExprView::Identifier(a), op.kind, ExprView::Identifier(b));
    assert(ts[0] == plain_name(a) && ts[1] == op && ts[2] == plain_name(b) && ts[3] == right);
    assert(infix_rule(op.kind) == Some(InfixRule::BinOp) && own > 0);
    assert(prefix(PrefixRule::Identifier, ts, 3, plain_name(b)) == done(0, ExprView::Identifier(b)));
    assert(climb(ts, 3, own, ExprView::Identifier(b)) == done(0, ExprView::Identifier(b)));
    assert(expression(ts, 3, plain_name(b), own) == done(0, ExprView::Identifier(b)));
    assert(parse(ts, 2, own) == done(1, Some(ExprView::Identifier(b))));
    assert(operand(ts, 2, own, op.text) == done(1, ExprView::Identifier(b)));
    assert(infix(InfixRule::BinOp, ts, 2, ExprView::Identifier(a), op) == done(1, whole));
    assert(climb(ts, 3, 0, whole) == done(0, whole));
    assert(climb(ts, 1, 0, ExprView::Identifier(a)) == done(2, whole));
    assert(prefix(PrefixRule::Identifier, ts, 1, plain_name(a)) == done(0, ExprView::Identifier(a)));
    assert(expression(ts, 1, plain_name(a), 0) == done(2, whole));
    assert(parse(ts, 0, 0) == done(3, Some(whole)));
    assert(operand(ts, 0, 0, open.text) == done(3, whole));
}

/// An argument of a call is a whole expression: the tokens `f ( a op b )`
/// are the call of `f` with the operation as its one argument.
pub proof fn lemma_argument_holds_an_operation(f: Seq<char>, open: Seq<char>, a: Seq<char>, op: TokenView, b: Seq<char>, close: Seq<char>)
    requires
        no_sigil(f),
        no_sigil(a),
        no_sigil(b),
        binary_operator(op.kind),
    ensures
        parse(
            seq![
                plain_name(f),
                TokenView { text: open, kind: TokenType::OpenParen },
                plain_name(a),
                op,
                plain_name(b),
                TokenView { text: close, kind: TokenType::CloseParen },
            ],
            0,
            0,
        ) == done(6, Some(ExprView::FnCall { name: f, args: seq![binary(ExprView::Identifier(a), op.kind, ExprView::Identifier(b))] })),
{
    let left = TokenView { text: open, kind: TokenType::OpenParen };
    let right = TokenView { text: close, kind: TokenType::CloseParen };
    let ts = seq![plain_name(f), left, plain_name(a), op, plain_name(b), right];
    let own = precedence_of(op.kind);
    let whole = binary(ExprView::Identifier(a), op.kind, ExprView::Identifier(b));
    let made = ExprView::FnCall { name: f, args: seq![whole] };
    assert(infix_rule(op.kind) == Some(InfixRule::BinOp) && own > 0);
    assert(prefix(PrefixRule::Identifier, ts, 5, plain_name(b)) == done(0, ExprView::Identifier(b)));
    assert(climb(ts, 5, own, ExprView::Identifier(b)) == done(0, ExprView::Identifier(b)));
    assert(expression(ts, 5, plain_name(b), own) == done(0, ExprView::Identifier(b)));
    assert(parse(ts, 4, own) == done(1, Some(ExprView::Identifier(b))));
    assert(operand(ts, 4, own, op.text) == done(1, ExprView::Identifier(b)));
    assert(infix(InfixRule::BinOp, ts, 4, ExprView::Identifier(a), op) == done(1, whole));
    assert(climb(ts, 5, 0, whole) == done(0, whole));
    assert(climb(ts, 3, 0, ExprView::Identifier(a)) == done(2, whole));
    assert(prefix(PrefixRule::Identifier, ts, 3, plain_name(a)) == done(0, ExprView::Identifier(a)));
    assert(expression(ts, 3, plain_name(a), 0) == done(2, whole));
    assert(Seq::<ExprView>::empty().push(whole) =~= seq![whole]);
    assert(call_args(ts, 5, seq![whole], left) == done(1, seq![whole]));
    assert(call_args(ts, 2, Seq::empty(), left) == done(4, seq![whole]));
    assert(infix(InfixRule::Call, ts, 2, ExprView::Identifier(f), left) == done(4, made));
    assert(climb(ts, 6, 0, made) == done(0, made));
    assert(climb(ts, 1, 0, ExprView::Identifier(f)) == done(5, made));
    assert(prefix(PrefixRule::Identifier, ts, 1, plain_name(f)) == done(0, ExprView::Identifier(f)));
    assert(expression(ts, 1, plain_name(f), 0) == done(5, made));
}

/// Multiplication binds tighter than addition, on the right: the tokens
/// `a + b * c` are the sum of `a` and the product of `b` and `c`.
pub proof fn lemma_product_on_the_right(a: Seq<char>, plus: Seq<char>, b: Seq<char>, times: Seq<char>, c: Seq<char>)
    requires
        no_sigil(a),
        no_sigil(b),
        no_sigil(c),
    ensures
        parse(
            seq![
                plain_name(a),
                TokenView { text: plus, kind: TokenType::Plus },
                plain_name(b),
                TokenView { text: times, kind: TokenType::Multiply },
                plain_name(c),
            ],
            0,
            0,
        ) == done(
            5,
            Some(binary(ExprView::Identifier(a), TokenType::Plus, binary(ExprView::Identifier(b), TokenType::Multiply, ExprView::Identifier(c)))),
        ),
{
    lemma_two_operators(a, TokenView { text: plus, kind: TokenType::Plus }, b, TokenView { text: times, kind: TokenType::Multiply }, c);
}

/// Multiplication binds tighter than addition, on the left: the tokens
/// `a * b + c` are the sum of the product of `a` and `b`, and `c`.
pub proof fn lemma_product_on_the_left(a: Seq<char>, times: Seq<char>, b: Seq<char>, plus: Seq<char>, c: Seq<char>)
    requires
        no_sigil(a),
        no_sigil(b),
        no_sigil(c),
    ensures
        parse(
            seq![
                plain_name(a),
                TokenView { text: times, kind: TokenType::Multiply },
                plain_name(b),
                TokenView { text: plus, kind: TokenType::Plus },
                plain_name(c),
            ],
            0,
            0,
        ) == done(
            5,
            Some(binary(binary(ExprView::Identifier(a), TokenType::Multiply, ExprView::Identifier(b)), TokenType::Plus, ExprView::Identifier(c))),
        ),
{
    lemma_two_operators(a, TokenView { text: times, kind: TokenType::Multiply }, b, TokenView { text: plus, kind: TokenType::Plus }, c);
}

/// Whether an expression is a literal.
pub open spec fn is_literal(e: ExprView) -> bool {
    e is Int || e is Float || e is Bool || e is Char
}

/// Whether the value of every field is a literal.
pub open spec fn all_literals(fields: Seq<(Seq<char>, ExprView)>) -> bool {
    forall|i: int| 0 <= i < fields.len() ==> is_literal(#[trigger] fields[i].1)
}

/// The name of a field of an instance: the instance, a dot and the field.
pub open spec fn field_path(instance: Seq<char>, field: Seq<char>) -> Seq<char> {
    instance + "."@ + field
}

/// Two fields of one instance with one path are one field, and no path of a
/// field is the name of the instance.
proof fn lemma_field_paths_differ(instance: Seq<char>, a: Seq<char>, b: Seq<char>)
    ensures
        field_path(instance, a) == field_path(instance, b) ==> a == b,
        field_path(instance, a) != instance,
{
    let stem = instance + "."@;
    reveal_strlit(".");
    assert(stem.len() == instance.len() + 1);
    assert((stem + a).subrange(stem.len() as int, (stem + a).len() as int) =~= a);
    assert((stem + b).subrange(stem.len() as int, (stem + b).len() as int) =~= b);
}

proof fn lemma_fields_declared(
    fields: Seq<(Seq<char>, ExprView)>,
    i: nat,
    env: EnvView,
    scope: nat,
    in_fn: bool,
    root: RootView,
    instance: Seq<char>,
    layout: LayoutView,
    acc: Seq<char>,
    k: int,
)
    requires
        scope < env.len(),
        all_literals(fields),
        0 <= k < fields.len(),
        i <= fields.len(),
        emit_fields(fields, i, env, scope, in_fn, root, instance, Some(layout), acc).out is Ok,
        k < i ==> field_kind(layout, fields[k].0) is Some && resolve(env, scope, field_path(instance, fields[k].0)) == field_kind(
            layout,
            fields[k].0,
        ),
    ensures
        field_kind(layout, fields[k].0) is Some,
        resolve(emit_fields(fields, i, env, scope, in_fn, root, instance, Some(layout), acc).env, scope, field_path(instance, fields[k].0))
            == field_kind(layout, fields[k].0),
        resolve(emit_fields(fields, i, env, scope, in_fn, root, instance, Some(layout), acc).env, scope, instance) == resolve(
            env,
            scope,
            instance,
        ),
    decreases fields.len() - i,
{
    if i < fields.len() {
        let field = fields[i as int].0;
        let scoped = field_path(instance, field);
        assert(is_literal(fields[i as int].1));
        let value = emit(fields[i as int].1, env, scope, in_fn, root);
        assert(value.env == env && value.out is Ok);
        let text = value.out->Ok_0;
        let line = acc + scoped + " = "@ + text + if i + 1 < fields.len() { ";\n"@ } else { Seq::empty() };
        let kind = field_kind(layout, field)->0;
        let next = env_register(env, scope, scoped, kind);
        lemma_field_paths_differ(instance, field, fields[k].0);
        if field == fields[k].0 {
            lemma_declared_is_seen(env, scope, scoped, kind);
        } else {
            lemma_other_names_unchanged(env, scope, scoped, kind, scope, field_path(instance, fields[k].0));
        }
        lemma_other_names_unchanged(env, scope, scoped, kind, scope, instance);
        lemma_fields_declared(fields, i + 1, next, scope, in_fn, root, instance, layout, line, k);
    }
}

/// An instance of a struct that is assigned to a new variable declares its
/// fields: where the values of the fields are literals and the assignment is
/// emitted, the variable has the kind of the struct and, for every field
/// that is given a value, the variable `identifier.field` has the kind that
/// the layout of the struct gives the field.
pub proof fn lemma_instance_declares_fields(
    datatype: Seq<char>,
    identifier: Seq<char>,
    instance: ExprView,
    env: EnvView,
    scope: nat,
    in_fn: bool,
    root: RootView,
    k: int,
)
    requires
        scope < env.len(),
        instance is StructInit,
        all_literals(instance->StructInit_variables),
        0 <= k < instance->StructInit_variables.len(),
        emit(ExprView::Assignment { datatype, identifier, value: Box::new(instance) }, env, scope, in_fn, root).out is Ok,
    ensures
        ({
            let after = emit(ExprView::Assignment { datatype, identifier, value: Box::new(instance) }, env, scope, in_fn, root).env;
            let layout = resolve_struct(env_register(env, scope, identifier, kind_of(datatype)), scope, datatype);
            let field = instance->StructInit_variables[k].0;
            &&& layout is Some
            &&& field_kind(layout->0, field) is Some
            &&& resolve(after, scope, field_path(identifier, field)) == field_kind(layout->0, field)
            &&& resolve(after, scope, identifier) == Some(kind_of(datatype))
        }),
{
    let declared = env_register(env, scope, identifier, kind_of(datatype));
    let layout = resolve_struct(declared, scope, datatype);
    lemma_declared_is_seen(env, scope, identifier, kind_of(datatype));
    lemma_fields_declared(
        instance->StructInit_variables,
        0,
        declared,
        scope,
        in_fn,
        root,
        identifier,
        layout->0,
        "struct "@ + datatype + " "@ + identifier + ";\n"@,
        k,
    );
}

/// A call of `print` with one name that is declared with a kind that is no
/// struct is the call that prints a variable of that kind, with no
/// separator after it.
pub proof fn lemma_print_declared(name: Seq<char>, kind: Kind, env: EnvView, scope: nat, in_fn: bool, root: RootView)
    requires
        resolve(env, scope, name) == Some(kind),
        !(kind is Struct),
    ensures
        emit(ExprView::FnCall { name: "print"@, args: seq![ExprView::Identifier(name)] }, env, scope, in_fn, root) == (Emitted {
            env,
            out: Ok(print_call(kind, variable_name(name, in_fn))),
        }),
{
    let args = seq![ExprView::Identifier(name)];
    let statement = Seq::<char>::empty() + print_call(kind, variable_name(name, in_fn));
    assert(args[0] == ExprView::Identifier(name));
    assert(print_statements(args, 1, env, scope, in_fn, statement, true) == Ok::<Seq<char>, ErrorView>(statement));
    assert(print_statements(args, 0, env, scope, in_fn, Seq::empty(), false) == print_statements(args, 1, env, scope, in_fn, statement, true));
    assert(statement =~= print_call(kind, variable_name(name, in_fn)));
}

} // verus!
