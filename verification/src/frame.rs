//! What emission changes in the environment, and what it leaves alone.
//!
//! Emitting a node in a scope declares names in that scope only and may add
//! new scopes after the ones that exist; every other scope stays as it is.
//! Emitting a block changes no scope that exists: what a block declares is
//! not seen outside it.

use vstd::prelude::*;
use crate::emission::{
    RootView, Sections, declare_variable, emit, emit_args, emit_block, emit_fields, emit_statements, fn_arguments,
    register_fields,
};
use crate::expression::ExprView;
use crate::scope::{EnvView, Kind, LayoutView, env_add, env_register, env_register_struct, resolve, resolve_struct, well_formed};

verus! {

/// Whether `after` has every scope of `before` unchanged, but for what the
/// scope `scope` declares, and is well formed if `before` is.
pub open spec fn grown_in(before: EnvView, after: EnvView, scope: nat) -> bool {
    &&& before.len() <= after.len()
    &&& forall|i: int| 0 <= i < before.len() && i != scope ==> #[trigger] after[i] == before[i]
    &&& scope < before.len() ==> after[scope as int].id == before[scope as int].id && after[scope as int].parent
        == before[scope as int].parent
    &&& well_formed(before) ==> well_formed(after)
}

/// Whether `after` has every scope of `before` unchanged, and is well formed
/// if `before` is.
pub open spec fn grown(before: EnvView, after: EnvView) -> bool {
    &&& before.len() <= after.len()
    &&& forall|i: int| 0 <= i < before.len() ==> #[trigger] after[i] == before[i]
    &&& well_formed(before) ==> well_formed(after)
}

proof fn lemma_grown_in_twice(first: EnvView, second: EnvView, third: EnvView, scope: nat)
    requires
        grown_in(first, second, scope),
        grown_in(second, third, scope),
        scope < first.len(),
    ensures
        grown_in(first, third, scope),
{
    assert forall|i: int| 0 <= i < first.len() && i != scope implies #[trigger] third[i] == first[i] by {
        assert(third[i] == second[i]);
    }
}

proof fn lemma_grown_then_in(first: EnvView, second: EnvView, third: EnvView, scope: nat)
    requires
        grown_in(first, second, scope),
        grown(second, third),
        scope < first.len(),
    ensures
        grown_in(first, third, scope),
{
    assert forall|i: int| 0 <= i < first.len() && i != scope implies #[trigger] third[i] == first[i] by {
        assert(third[i] == second[i]);
    }
    assert(third[scope as int] == second[scope as int]);
}

proof fn lemma_register_grows(env: EnvView, scope: nat, name: Seq<char>, kind: Kind)
    requires
        scope < env.len(),
    ensures
        grown_in(env, env_register(env, scope, name, kind), scope),
{
    let after = env_register(env, scope, name, kind);
    assert forall|i: int| 0 <= i < after.len() implies (#[trigger] after[i]).id == env[i].id && after[i].parent == env[i].parent by {}
}

proof fn lemma_register_struct_grows(env: EnvView, scope: nat, name: Seq<char>, layout: LayoutView)
    requires
        scope < env.len(),
    ensures
        grown_in(env, env_register_struct(env, scope, name, layout), scope),
{
    let after = env_register_struct(env, scope, name, layout);
    assert forall|i: int| 0 <= i < after.len() implies (#[trigger] after[i]).id == env[i].id && after[i].parent == env[i].parent by {}
}

proof fn lemma_add_grows(env: EnvView, parent: Option<nat>)
    requires
        parent is Some ==> parent->0 < env.len(),
    ensures
        grown(env, env_add(env, parent)),
{
    let after = env_add(env, parent);
    if well_formed(env) {
        assert forall|i: int| 0 <= i < after.len() implies (#[trigger] after[i]).id == i && (after[i].parent is Some ==> after[i].parent->0 < i) by {
            if i < env.len() {
                assert(after[i] == env[i]);
            }
        }
    }
}

proof fn lemma_register_fields_grow(env: EnvView, scope: nat, instance: Seq<char>, layout: LayoutView, i: nat)
    requires
        scope < env.len(),
    ensures
        grown_in(env, register_fields(env, scope, instance, layout, i), scope),
    decreases layout.len() - i,
{
    if i < layout.len() {
        let next = env_register(env, scope, instance + "."@ + layout[i as int].0, layout[i as int].1);
        lemma_register_grows(env, scope, instance + "."@ + layout[i as int].0, layout[i as int].1);
        lemma_register_fields_grow(next, scope, instance, layout, i + 1);
        lemma_grown_in_twice(env, next, register_fields(env, scope, instance, layout, i), scope);
    }
}

proof fn lemma_declare_grows(env: EnvView, scope: nat, name: Seq<char>, datatype: Seq<char>)
    requires
        scope < env.len(),
    ensures
        grown_in(env, declare_variable(env, scope, name, datatype).0, scope),
{
    let declared = env_register(env, scope, name, crate::scope::kind_of(datatype));
    lemma_register_grows(env, scope, name, crate::scope::kind_of(datatype));
    match crate::scope::kind_of(datatype) {
        Kind::Struct(s) => match resolve_struct(declared, scope, s) {
            Some(layout) => {
                lemma_register_fields_grow(declared, scope, name, layout, 0);
                lemma_grown_in_twice(env, declared, register_fields(declared, scope, name, layout, 0), scope);
            },
            None => {},
        },
        _ => {},
    }
}

proof fn lemma_fn_arguments_grow(arguments: Seq<(Seq<char>, Seq<char>)>, i: nat, env: EnvView, own: nat, acc: Seq<char>)
    requires
        own < env.len(),
    ensures
        grown_in(env, fn_arguments(arguments, i, env, own, acc).env, own),
    decreases arguments.len() - i,
{
    if i < arguments.len() {
        let (name, datatype) = arguments[i as int];
        let text = acc + crate::emission::c_type(datatype, false) + " "@ + name + if i + 1 < arguments.len() { ", "@ } else { Seq::empty() };
        let (declared, failed) = declare_variable(env, own, name, datatype);
        lemma_declare_grows(env, own, name, datatype);
        if failed is None {
            lemma_fn_arguments_grow(arguments, i + 1, declared, own, text);
            lemma_grown_in_twice(env, declared, fn_arguments(arguments, i, env, own, acc).env, own);
        }
    }
}

/// Emitting a node in a scope changes, among the scopes that exist, that
/// scope only, and there neither its index nor its parent.
#[verifier::rlimit(50)]
pub proof fn lemma_emit_grows(e: ExprView, env: EnvView, scope: nat, in_fn: bool, root: RootView)
    requires
        scope < env.len(),
    ensures
        grown_in(env, emit(e, env, scope, in_fn, root).env, scope),
    decreases e, 0nat,
{
    let result = emit(e, env, scope, in_fn, root).env;
    match e {
        ExprView::UnaryOp { op, expr } => {
            lemma_emit_grows(*expr, env, scope, in_fn, root);
        },
        ExprView::BinOp { left, op, right } => {
            let first = emit(*left, env, scope, in_fn, root);
            lemma_emit_grows(*left, env, scope, in_fn, root);
            lemma_emit_grows(*right, first.env, scope, in_fn, root);
            if first.out is Ok && crate::emission::operator_symbol(op) is Some {
                lemma_grown_in_twice(env, first.env, result, scope);
            }
        },
        ExprView::Struct { identifier, variables } => {
            lemma_register_struct_grows(env, scope, identifier, crate::emission::declared_layout(variables));
        },
        ExprView::StructInit { identifier, name, variables } => {
            if name.len() != 0 {
                match resolve_struct(env, scope, identifier) {
                    Some(layout) => {
                        lemma_fields_grow(variables, 0, env, scope, in_fn, root, name, Some(layout), "struct "@ + identifier + " "@ + name + ";\n"@);
                    },
                    None => {},
                }
            }
        },
        ExprView::Assignment { datatype, identifier, value } => match *value {
            ExprView::StructInit { variables, .. } => {
                let declared = env_register(env, scope, identifier, crate::scope::kind_of(datatype));
                lemma_register_grows(env, scope, identifier, crate::scope::kind_of(datatype));
                match resolve_struct(declared, scope, datatype) {
                    Some(layout) => {
                        lemma_fields_grow(
                            variables,
                            0,
                            declared,
                            scope,
                            in_fn,
                            root,
                            identifier,
                            Some(layout),
                            "struct "@ + datatype + " "@ + identifier + ";\n"@,
                        );
                        lemma_grown_in_twice(env, declared, result, scope);
                    },
                    None => {},
                }
            },
            _ => {
                let (declared, failed) = declare_variable(env, scope, identifier, datatype);
                lemma_declare_grows(env, scope, identifier, datatype);
                if failed is None {
                    lemma_emit_grows(*value, declared, scope, in_fn, root);
                    lemma_grown_in_twice(env, declared, result, scope);
                }
            },
        },
        ExprView::Reassignment { identifier, value } => {
            if resolve(env, scope, identifier) is Some {
                match *value {
                    ExprView::StructInit { variables, .. } => {
                        lemma_fields_grow(variables, 0, env, scope, in_fn, root, identifier, None, Seq::empty());
                    },
                    _ => {
                        lemma_emit_grows(*value, env, scope, in_fn, root);
                    },
                }
            }
        },
        ExprView::FnCall { name, args } => {
            if name != "print"@ {
                match crate::emission::call_head(name, args.len()) {
                    Ok(head) => {
                        lemma_args_grow(args, 0, env, scope, in_fn, root, head);
                    },
                    Err(_) => {},
                }
            }
        },
        ExprView::While { condition, body } => {
            let tested = emit(*condition, env, scope, in_fn, root);
            lemma_emit_grows(*condition, env, scope, in_fn, root);
            if tested.out is Ok {
                lemma_block_grows(body, tested.env, Some(scope), in_fn, root);
                lemma_grown_then_in(env, tested.env, result, scope);
            }
        },
        ExprView::If { condition, body } => {
            let tested = emit(*condition, env, scope, in_fn, root);
            lemma_emit_grows(*condition, env, scope, in_fn, root);
            if tested.out is Ok {
                lemma_block_grows(body, tested.env, Some(scope), in_fn, root);
                lemma_grown_then_in(env, tested.env, result, scope);
            }
        },
        ExprView::IfElse { condition, body_true, body_false } => {
            let tested = emit(*condition, env, scope, in_fn, root);
            lemma_emit_grows(*condition, env, scope, in_fn, root);
            if tested.out is Ok {
                let first = emit_block(body_true, tested.env, Some(scope), in_fn, root);
                lemma_block_grows(body_true, tested.env, Some(scope), in_fn, root);
                lemma_grown_then_in(env, tested.env, first.env, scope);
                if first.out is Ok {
                    lemma_block_grows(body_false, first.env, Some(scope), in_fn, root);
                    lemma_grown_then_in(env, first.env, result, scope);
                }
            }
        },
        ExprView::TernaryIfElse { condition, body_true, body_false } => {
            let tested = emit(*condition, env, scope, in_fn, root);
            lemma_emit_grows(*condition, env, scope, in_fn, root);
            if tested.out is Ok {
                let first = emit(*body_true, tested.env, scope, in_fn, root);
                lemma_emit_grows(*body_true, tested.env, scope, in_fn, root);
                lemma_grown_in_twice(env, tested.env, first.env, scope);
                if first.out is Ok {
                    lemma_emit_grows(*body_false, first.env, scope, in_fn, root);
                    lemma_grown_in_twice(env, first.env, result, scope);
                }
            }
        },
        ExprView::FnDeclaration { identifier, arguments, return_type, body } => {
            let own = env.len();
            let added = env_add(env, Some(scope));
            lemma_add_grows(env, Some(scope));
            let header = fn_arguments(arguments, 0, added, own, crate::emission::c_type(return_type, true) + " "@ + identifier + "("@);
            lemma_fn_arguments_grow(arguments, 0, added, own, crate::emission::c_type(return_type, true) + " "@ + identifier + "("@);
            assert(grown(env, header.env)) by {
                assert forall|i: int| 0 <= i < env.len() implies #[trigger] header.env[i] == env[i] by {
                    assert(header.env[i] == added[i]);
                }
            }
            if header.out is Ok {
                lemma_block_grows(body, header.env, Some(own), true, root);
                assert(grown(env, result)) by {
                    assert forall|i: int| 0 <= i < env.len() implies #[trigger] result[i] == env[i] by {
                        assert(result[i] == header.env[i]);
                    }
                }
            }
        },
        ExprView::Return(value) => {
            lemma_emit_grows(*value, env, scope, true, root);
        },
        _ => {},
    }
}

proof fn lemma_args_grow(args: Seq<ExprView>, i: nat, env: EnvView, scope: nat, in_fn: bool, root: RootView, acc: Seq<char>)
    requires
        scope < env.len(),
    ensures
        grown_in(env, emit_args(args, i, env, scope, in_fn, root, acc).env, scope),
    decreases args, args.len() - i,
{
    if i < args.len() {
        let between: Seq<char> = if i + 1 < args.len() { ", "@ } else { Seq::empty() };
        match args[i as int] {
            ExprView::Identifier(name) => {
                lemma_args_grow(args, i + 1, env, scope, in_fn, root, acc + "&"@ + name + between);
            },
            _ => {
                let argument = emit(args[i as int], env, scope, in_fn, root);
                lemma_emit_grows(args[i as int], env, scope, in_fn, root);
                match argument.out {
                    Ok(text) => {
                        lemma_args_grow(args, i + 1, argument.env, scope, in_fn, root, acc + text + between);
                        lemma_grown_in_twice(env, argument.env, emit_args(args, i, env, scope, in_fn, root, acc).env, scope);
                    },
                    Err(_) => {},
                }
            },
        }
    }
}

proof fn lemma_fields_grow(
    fields: Seq<(Seq<char>, ExprView)>,
    i: nat,
    env: EnvView,
    scope: nat,
    in_fn: bool,
    root: RootView,
    instance: Seq<char>,
    layout: Option<LayoutView>,
    acc: Seq<char>,
)
    requires
        scope < env.len(),
    ensures
        grown_in(env, emit_fields(fields, i, env, scope, in_fn, root, instance, layout, acc).env, scope),
    decreases fields, fields.len() - i,
{
    if i < fields.len() {
        let scoped = instance + "."@ + fields[i as int].0;
        let value = emit(fields[i as int].1, env, scope, in_fn, root);
        let result = emit_fields(fields, i, env, scope, in_fn, root, instance, layout, acc).env;
        lemma_emit_grows(fields[i as int].1, env, scope, in_fn, root);
        match value.out {
            Ok(text) => {
                let line = acc + scoped + " = "@ + text + if i + 1 < fields.len() { ";\n"@ } else { Seq::empty() };
                match layout {
                    None => {
                        lemma_fields_grow(fields, i + 1, value.env, scope, in_fn, root, instance, layout, line);
                        lemma_grown_in_twice(env, value.env, result, scope);
                    },
                    Some(known) => match crate::scope::field_kind(known, fields[i as int].0) {
                        Some(kind) => {
                            let next = env_register(value.env, scope, scoped, kind);
                            lemma_register_grows(value.env, scope, scoped, kind);
                            lemma_grown_in_twice(env, value.env, next, scope);
                            lemma_fields_grow(fields, i + 1, next, scope, in_fn, root, instance, layout, line);
                            lemma_grown_in_twice(env, next, result, scope);
                        },
                        None => {},
                    },
                }
            },
            Err(_) => {},
        }
    }
}

proof fn lemma_statements_grow(block: Seq<ExprView>, i: nat, env: EnvView, scope: nat, in_fn: bool, root: RootView, acc: Sections)
    requires
        scope < env.len(),
    ensures
        grown_in(env, emit_statements(block, i, env, scope, in_fn, root, acc).env, scope),
    decreases block, block.len() - i,
{
    if i < block.len() {
        let statement = emit(block[i as int], env, scope, in_fn, root);
        lemma_emit_grows(block[i as int], env, scope, in_fn, root);
        match statement.out {
            Ok(text) => {
                lemma_statements_grow(block, i + 1, statement.env, scope, in_fn, root, crate::emission::sort_statement(acc, block[i as int], text));
                lemma_grown_in_twice(env, statement.env, emit_statements(block, i, env, scope, in_fn, root, acc).env, scope);
            },
            Err(_) => {},
        }
    }
}

/// Emitting a block changes no scope that exists: the block has a new scope
/// of its own, and what it declares is declared there or further inside.
pub proof fn lemma_block_grows(block: Seq<ExprView>, env: EnvView, parent: Option<nat>, in_fn: bool, root: RootView)
    requires
        parent is Some ==> parent->0 < env.len(),
    ensures
        grown(env, emit_block(block, env, parent, in_fn, root).env),
    decreases block, block.len() + 1,
{
    let added = env_add(env, parent);
    let result = emit_block(block, env, parent, in_fn, root).env;
    lemma_add_grows(env, parent);
    lemma_statements_grow(block, 0, added, env.len(), in_fn, root, crate::emission::no_sections());
    assert forall|i: int| 0 <= i < env.len() implies #[trigger] result[i] == env[i] by {
        assert(result[i] == added[i]);
    }
}

/// What is seen from a scope depends on that scope and the scopes before it only.
pub proof fn lemma_resolve_from_unchanged(before: EnvView, after: EnvView, from: nat, name: Seq<char>)
    requires
        from < before.len(),
        grown(before, after),
    ensures
        resolve(after, from, name) == resolve(before, from, name),
        resolve_struct(after, from, name) == resolve_struct(before, from, name),
    decreases from,
{
    assert(after[from as int] == before[from as int]);
    match before[from as int].parent {
        Some(p) => {
            if p < from {
                lemma_resolve_from_unchanged(before, after, p, name);
            }
        },
        None => {},
    }
}

/// What a block declares does not leak: from every scope that exists
/// before a block is emitted, the same variables and structs are seen after
/// it as before it, whether the block is emitted to its end or fails.
pub proof fn lemma_block_does_not_leak(block: Seq<ExprView>, env: EnvView, parent: Option<nat>, in_fn: bool, root: RootView, from: nat, name: Seq<char>)
    requires
        from < env.len(),
        parent is Some ==> parent->0 < env.len(),
    ensures
        resolve(emit_block(block, env, parent, in_fn, root).env, from, name) == resolve(env, from, name),
        resolve_struct(emit_block(block, env, parent, in_fn, root).env, from, name) == resolve_struct(env, from, name),
        well_formed(env) ==> well_formed(emit_block(block, env, parent, in_fn, root).env),
{
    lemma_block_grows(block, env, parent, in_fn, root);
    lemma_resolve_from_unchanged(env, emit_block(block, env, parent, in_fn, root).env, from, name);
}

} // verus!
