//! What the emitter produces, stated over plain values.
//!
//! `emit` gives, for a node of the syntax tree, the scope it stands in and the
//! environment before it, the environment after it and either the C text of
//! the node or the failure that stops the compilation. Declarations are
//! recorded in the environment as they are met, so a name can be used only
//! after the statement that declares it.

use vstd::prelude::*;
use crate::decimal::decimal_int;
use crate::error::{ErrorKind, ErrorView, failure};
use crate::expression::ExprView;
use crate::paths::{after_first, arrow_path, before_first, path_text};
use crate::scope::{EnvView, Kind, LayoutView, env_add, env_register, env_register_struct, field_kind, kind_of, print_call, resolve, resolve_struct};
use crate::text::{count, find};
use crate::token::TokenType;

verus! {

/// Where the library modules are kept, as the caller found it.
pub enum RootView {
    /// The components of the path of the directory that holds the marker directory.
    Found(Seq<Seq<char>>),
    /// The working directory could not be determined.
    NoWorkingDirectory,
    /// A component of the path is not valid text.
    Unreadable,
    /// No directory from the working directory upwards holds the marker directory.
    Missing,
}

/// The environment after a node and the text of the node, or the failure.
pub struct Emitted {
    pub env: EnvView,
    pub out: Result<Seq<char>, ErrorView>,
}

/// The four streams that the statements of a block are sorted into.
pub struct Sections {
    pub includes: Seq<char>,
    pub structs: Seq<char>,
    pub functions: Seq<char>,
    pub code: Seq<char>,
}

/// The environment after a block and its four streams, or the failure.
pub struct EmittedBlock {
    pub env: EnvView,
    pub out: Result<Sections, ErrorView>,
}

/// The C symbol of an operator; `None` for a token kind that is no operator.
pub open spec fn operator_symbol(op: TokenType) -> Option<Seq<char>> {
    match op {
        TokenType::Plus => Some("+"@),
        TokenType::Minus => Some("-"@),
        TokenType::Multiply => Some("*"@),
        TokenType::Divide => Some("/"@),
        TokenType::Greater => Some(">"@),
        TokenType::Less => Some("<"@),
        TokenType::Equal => Some("=="@),
        TokenType::Not => Some("!"@),
        TokenType::GreaterEqual => Some(">="@),
        TokenType::LessEqual => Some("<="@),
        _ => None,
    }
}

/// The C name of a type. A struct is named by value where a variable is
/// declared with its value (`lhs`), and by pointer elsewhere.
pub open spec fn c_type(datatype: Seq<char>, lhs: bool) -> Seq<char> {
    if datatype == "int"@ {
        "int"@
    } else if datatype == "flt"@ {
        "float"@
    } else if datatype == "bln"@ {
        "bool"@
    } else if datatype == "chr"@ {
        "char"@
    } else if datatype == "nul"@ {
        "void"@
    } else if lhs {
        "struct "@ + datatype
    } else {
        "struct "@ + datatype + " *"@
    }
}

/// A variable name as it is written: inside a function every `.` of a field
/// path becomes `->`, because structs reach a function by reference.
pub open spec fn variable_name(name: Seq<char>, in_fn: bool) -> Seq<char> {
    if in_fn {
        arrow_path(name)
    } else {
        name
    }
}

/// The name of the directory that marks where the library modules are kept.
pub open spec fn marker() -> Seq<char> {
    ".boron-std"@
}

/// The path that a module is included by. A module under `std` is looked for
/// below the marker directory; any other path stands as it is.
pub open spec fn include_path(module: Seq<char>, root: RootView) -> Result<Seq<char>, ErrorView> {
    if before_first(module, '/') == "std"@ {
        match root {
            RootView::Found(components) => Ok(
                path_text(components.push(marker())) + if find(module, '/') < module.len() {
                    seq!['/'] + after_first(module, '/')
                } else {
                    Seq::empty()
                },
            ),
            RootView::NoWorkingDirectory => Err(failure(ErrorKind::CouldNotGetCurrentDir, Seq::empty())),
            RootView::Unreadable => Err(failure(ErrorKind::CouldNotEmit, "use"@)),
            RootView::Missing => Err(failure(ErrorKind::CouldNotReadFile, module)),
        }
    } else {
        Ok(module)
    }
}

/// The body of a struct definition from its field `i` on, after `acc`: one
/// line for each field, its type and its name.
pub open spec fn struct_lines(variables: Seq<(Seq<char>, Seq<char>)>, i: nat, acc: Seq<char>) -> Seq<char>
    decreases variables.len() - i,
{
    if i >= variables.len() {
        acc
    } else {
        struct_lines(variables, i + 1, acc + c_type(variables[i as int].1, false) + " "@ + variables[i as int].0 + ";\n"@)
    }
}

/// The layout that the fields of a struct definition declare.
pub open spec fn declared_layout(variables: Seq<(Seq<char>, Seq<char>)>) -> LayoutView {
    Seq::new(variables.len(), |i: int| (variables[i].0, kind_of(variables[i].1)))
}

/// The environment with the fields of `layout` from `i` on declared in
/// `scope` as the variables `instance.field`.
pub open spec fn register_fields(env: EnvView, scope: nat, instance: Seq<char>, layout: LayoutView, i: nat) -> EnvView
    decreases layout.len() - i,
{
    if i >= layout.len() {
        env
    } else {
        register_fields(env_register(env, scope, instance + "."@ + layout[i as int].0, layout[i as int].1), scope, instance, layout, i + 1)
    }
}

/// The environment with a variable of the type `datatype` declared in `scope`,
/// and with it the fields of its struct if it is one; or the failure if the
/// struct is unknown (the variable itself is declared by then).
pub open spec fn declare_variable(env: EnvView, scope: nat, name: Seq<char>, datatype: Seq<char>) -> (EnvView, Option<ErrorView>) {
    let declared = env_register(env, scope, name, kind_of(datatype));
    match kind_of(datatype) {
        Kind::Struct(s) => match resolve_struct(declared, scope, s) {
            Some(layout) => (register_fields(declared, scope, name, layout, 0), None),
            None => (declared, Some(failure(ErrorKind::UndeclaredVariable, s))),
        },
        _ => (declared, None),
    }
}

/// The statements that print the arguments from `i` on, after `acc`: for
/// each argument that is a bare name the call that prints a variable of its
/// kind, with the separator that ends a statement between two calls and none
/// after the last. Arguments that are no bare names are passed over. `any`
/// says whether `acc` holds a call already.
pub open spec fn print_statements(args: Seq<ExprView>, i: nat, env: EnvView, scope: nat, in_fn: bool, acc: Seq<char>, any: bool) -> Result<Seq<char>, ErrorView>
    decreases args.len() - i,
{
    if i >= args.len() {
        Ok(acc)
    } else {
        match args[i as int] {
            ExprView::Identifier(id) => match resolve(env, scope, id) {
                None => Err(failure(ErrorKind::UndeclaredVariable, id)),
                Some(Kind::Struct(_)) => Err(failure(ErrorKind::CouldNotEmit, id)),
                Some(kind) => print_statements(
                    args,
                    i + 1,
                    env,
                    scope,
                    in_fn,
                    (if any { acc + ";\n"@ } else { acc }) + print_call(kind, variable_name(id, in_fn)),
                    true,
                ),
            },
            _ => print_statements(args, i + 1, env, scope, in_fn, acc, any),
        }
    }
}

/// The opening of a call: the function name and `(`. For `receiver.method`
/// the method is the function and the receiver, by address, the first argument.
pub open spec fn call_head(name: Seq<char>, arguments: nat) -> Result<Seq<char>, ErrorView> {
    if count(name, '.') == 0 {
        Ok(name + "("@)
    } else if count(name, '.') == 1 {
        Ok(after_first(name, '.') + "(&"@ + before_first(name, '.') + if arguments != 0 { ", "@ } else { Seq::empty() })
    } else {
        Err(failure(ErrorKind::TooManyLeadingKeywords, name))
    }
}

/// A node of the syntax tree in C.
pub open spec fn emit(e: ExprView, env: EnvView, scope: nat, in_fn: bool, root: RootView) -> Emitted
    decreases e, 0nat,
{
    match e {
        ExprView::Int(i) => Emitted { env, out: Ok(decimal_int(i)) },
        ExprView::Float(text) => Emitted { env, out: Ok(text) },
        ExprView::Bool(b) => Emitted { env, out: Ok(if b { "true"@ } else { "false"@ }) },
        ExprView::Char(c) => Emitted { env, out: Ok("'"@.push(c) + "'"@) },
        ExprView::Identifier(name) => if resolve(env, scope, name) is Some {
            Emitted { env, out: Ok(variable_name(name, in_fn)) }
        } else {
            Emitted { env, out: Err(failure(ErrorKind::UndeclaredVariable, name)) }
        },
        ExprView::Reference(name) => Emitted { env, out: Ok(variable_name(name, in_fn)) },
        ExprView::Type(name) => Emitted { env, out: Err(failure(ErrorKind::CouldNotEmit, name)) },
        ExprView::UnaryOp { op, expr } => match operator_symbol(op) {
            None => Emitted { env, out: Err(failure(ErrorKind::CouldNotEmit, "operation"@)) },
            Some(symbol) => {
                let operand = emit(*expr, env, scope, in_fn, root);
                match operand.out {
                    Err(_) => operand,
                    Ok(text) => Emitted { env: operand.env, out: Ok("("@ + symbol + text + ")"@) },
                }
            },
        },
        ExprView::BinOp { left, op, right } => {
            let first = emit(*left, env, scope, in_fn, root);
            match first.out {
                Err(_) => first,
                Ok(left_text) => match operator_symbol(op) {
                    None => Emitted { env: first.env, out: Err(failure(ErrorKind::CouldNotEmit, "operation"@)) },
                    Some(symbol) => {
                        let second = emit(*right, first.env, scope, in_fn, root);
                        match second.out {
                            Err(_) => second,
                            Ok(right_text) => Emitted { env: second.env, out: Ok("("@ + left_text + " "@ + symbol + " "@ + right_text + ")"@) },
                        }
                    },
                },
            }
        },
        ExprView::Declaration { datatype, identifier } => Emitted { env, out: Ok(c_type(datatype, false) + " "@ + identifier) },
        ExprView::Struct { identifier, variables } => Emitted {
            env: env_register_struct(env, scope, identifier, declared_layout(variables)),
            out: Ok(struct_lines(variables, 0, "struct "@ + identifier + " {\n"@) + "}"@),
        },
        ExprView::StructInit { identifier, name, variables } => if name.len() == 0 {
            Emitted { env, out: Err(failure(ErrorKind::FoundBareStruct, Seq::empty())) }
        } else {
            match resolve_struct(env, scope, identifier) {
                None => Emitted { env, out: Err(failure(ErrorKind::UndeclaredVariable, identifier)) },
                Some(layout) => emit_fields(variables, 0, env, scope, in_fn, root, name, Some(layout), "struct "@ + identifier + " "@ + name + ";\n"@),
            }
        },
        ExprView::Assignment { datatype, identifier, value } => match *value {
            ExprView::StructInit { variables, .. } => {
                let declared = env_register(env, scope, identifier, kind_of(datatype));
                match resolve_struct(declared, scope, datatype) {
                    None => Emitted { env: declared, out: Err(failure(ErrorKind::UndeclaredVariable, datatype)) },
                    Some(layout) => emit_fields(variables, 0, declared, scope, in_fn, root, identifier, Some(layout), "struct "@ + datatype + " "@ + identifier + ";\n"@),
                }
            },
            _ => {
                let (declared, failed) = declare_variable(env, scope, identifier, datatype);
                match failed {
                    Some(error) => Emitted { env: declared, out: Err(error) },
                    None => {
                        let initial = emit(*value, declared, scope, in_fn, root);
                        match initial.out {
                            Err(_) => initial,
                            Ok(text) => Emitted { env: initial.env, out: Ok(c_type(datatype, true) + " "@ + variable_name(identifier, in_fn) + " = "@ + text) },
                        }
                    },
                }
            },
        },
        ExprView::Reassignment { identifier, value } => if resolve(env, scope, identifier) is None {
            Emitted { env, out: Err(failure(ErrorKind::UndeclaredVariable, identifier)) }
        } else {
            match *value {
                ExprView::StructInit { variables, .. } => emit_fields(variables, 0, env, scope, in_fn, root, identifier, None, Seq::empty()),
                _ => {
                    let assigned = emit(*value, env, scope, in_fn, root);
                    match assigned.out {
                        Err(_) => assigned,
                        Ok(text) => Emitted { env: assigned.env, out: Ok(variable_name(identifier, in_fn) + " = "@ + text) },
                    }
                },
            }
        },
        ExprView::FnCall { name, args } => if name == "print"@ {
            Emitted { env, out: print_statements(args, 0, env, scope, in_fn, Seq::empty(), false) }
        } else {
            match call_head(name, args.len()) {
                Err(error) => Emitted { env, out: Err(error) },
                Ok(head) => emit_args(args, 0, env, scope, in_fn, root, head),
            }
        },
        ExprView::While { condition, body } => {
            let tested = emit(*condition, env, scope, in_fn, root);
            match tested.out {
                Err(_) => tested,
                Ok(test) => {
                    let inner = emit_block(body, tested.env, Some(scope), in_fn, root);
                    match inner.out {
                        Err(error) => Emitted { env: inner.env, out: Err(error) },
                        Ok(sections) => Emitted { env: inner.env, out: Ok("while ("@ + test + ") {\n"@ + sections.code + "}"@) },
                    }
                },
            }
        },
        ExprView::If { condition, body } => {
            let tested = emit(*condition, env, scope, in_fn, root);
            match tested.out {
                Err(_) => tested,
                Ok(test) => {
                    let inner = emit_block(body, tested.env, Some(scope), in_fn, root);
                    match inner.out {
                        Err(error) => Emitted { env: inner.env, out: Err(error) },
                        Ok(sections) => Emitted { env: inner.env, out: Ok("if ("@ + test + ") {\n"@ + sections.code + "}"@) },
                    }
                },
            }
        },
        ExprView::IfElse { condition, body_true, body_false } => {
            let tested = emit(*condition, env, scope, in_fn, root);
            match tested.out {
                Err(_) => tested,
                Ok(test) => {
                    let first = emit_block(body_true, tested.env, Some(scope), in_fn, root);
                    match first.out {
                        Err(error) => Emitted { env: first.env, out: Err(error) },
                        Ok(taken) => {
                            let second = emit_block(body_false, first.env, Some(scope), in_fn, root);
                            match second.out {
                                Err(error) => Emitted { env: second.env, out: Err(error) },
                                Ok(other) => Emitted {
                                    env: second.env,
                                    out: Ok("if ("@ + test + ") {\n"@ + taken.code + "} else {\n"@ + other.code + "}"@),
                                },
                            }
                        },
                    }
                },
            }
        },
        ExprView::TernaryIfElse { condition, body_true, body_false } => {
            let tested = emit(*condition, env, scope, in_fn, root);
            match tested.out {
                Err(_) => tested,
                Ok(test) => {
                    let first = emit(*body_true, tested.env, scope, in_fn, root);
                    match first.out {
                        Err(_) => first,
                        Ok(taken) => {
                            let second = emit(*body_false, first.env, scope, in_fn, root);
                            match second.out {
                                Err(_) => second,
                                Ok(other) => Emitted { env: second.env, out: Ok("("@ + test + " ? "@ + taken + " : "@ + other + ")"@) },
                            }
                        },
                    }
                },
            }
        },
        ExprView::FnDeclaration { identifier, arguments, return_type, body } => {
            let own = env.len();
            let header = fn_arguments(arguments, 0, env_add(env, Some(scope)), own, c_type(return_type, true) + " "@ + identifier + "("@);
            match header.out {
                Err(_) => header,
                Ok(opening) => {
                    let inner = emit_block(body, header.env, Some(own), true, root);
                    match inner.out {
                        Err(error) => Emitted { env: inner.env, out: Err(error) },
                        Ok(sections) => Emitted { env: inner.env, out: Ok(opening + ") {\n"@ + sections.code + "}"@) },
                    }
                },
            }
        },
        ExprView::Return(value) => {
            let returned = emit(*value, env, scope, true, root);
            match returned.out {
                Err(_) => returned,
                Ok(text) => Emitted { env: returned.env, out: Ok("return "@ + text) },
            }
        },
        ExprView::Use(module) => match include_path(module, root) {
            Err(error) => Emitted { env, out: Err(error) },
            Ok(path) => Emitted { env, out: Ok("#include \""@ + path + ".h\""@) },
        },
    }
}

/// The arguments of a function definition from `i` on, after `acc`: each its
/// type and its name, with `, ` between two. Each is declared in the scope
/// `own` of the function, a struct together with its fields.
pub open spec fn fn_arguments(arguments: Seq<(Seq<char>, Seq<char>)>, i: nat, env: EnvView, own: nat, acc: Seq<char>) -> Emitted
    decreases arguments.len() - i,
{
    if i >= arguments.len() {
        Emitted { env, out: Ok(acc) }
    } else {
        let (name, datatype) = arguments[i as int];
        let text = acc + c_type(datatype, false) + " "@ + name + if i + 1 < arguments.len() { ", "@ } else { Seq::empty() };
        let (declared, failed) = declare_variable(env, own, name, datatype);
        match failed {
            Some(error) => Emitted { env: declared, out: Err(error) },
            None => fn_arguments(arguments, i + 1, declared, own, text),
        }
    }
}

/// The arguments of a call from `i` on, after `acc`, and the closing `)`. An
/// argument that is a bare name is passed by address; any other is emitted.
pub open spec fn emit_args(args: Seq<ExprView>, i: nat, env: EnvView, scope: nat, in_fn: bool, root: RootView, acc: Seq<char>) -> Emitted
    decreases args, args.len() - i,
{
    if i >= args.len() {
        Emitted { env, out: Ok(acc + ")"@) }
    } else {
        let between: Seq<char> = if i + 1 < args.len() { ", "@ } else { Seq::empty() };
        match args[i as int] {
            ExprView::Identifier(name) => emit_args(args, i + 1, env, scope, in_fn, root, acc + "&"@ + name + between),
            _ => {
                let argument = emit(args[i as int], env, scope, in_fn, root);
                match argument.out {
                    Err(_) => argument,
                    Ok(text) => emit_args(args, i + 1, argument.env, scope, in_fn, root, acc + text + between),
                }
            },
        }
    }
}

/// The assignments to the fields of `instance` from the field `i` on, after
/// `acc`: `instance.field = value`, with `;\n` between two. With a layout
/// each field is looked up in it and declared as the variable
/// `instance.field`; without one nothing is declared.
pub open spec fn emit_fields(
    fields: Seq<(Seq<char>, ExprView)>,
    i: nat,
    env: EnvView,
    scope: nat,
    in_fn: bool,
    root: RootView,
    instance: Seq<char>,
    layout: Option<LayoutView>,
    acc: Seq<char>,
) -> Emitted
    decreases fields, fields.len() - i,
{
    if i >= fields.len() {
        Emitted { env, out: Ok(acc) }
    } else {
        let scoped = instance + "."@ + fields[i as int].0;
        let value = emit(fields[i as int].1, env, scope, in_fn, root);
        match value.out {
            Err(_) => value,
            Ok(text) => {
                let line = acc + scoped + " = "@ + text + if i + 1 < fields.len() { ";\n"@ } else { Seq::empty() };
                match layout {
                    None => emit_fields(fields, i + 1, value.env, scope, in_fn, root, instance, layout, line),
                    Some(known) => match field_kind(known, fields[i as int].0) {
                        None => Emitted { env: value.env, out: Err(failure(ErrorKind::UndeclaredVariable, scoped)) },
                        Some(kind) => emit_fields(fields, i + 1, env_register(value.env, scope, scoped, kind), scope, in_fn, root, instance, layout, line),
                    },
                }
            },
        }
    }
}

/// The sections with one more statement: its text goes to the stream of its
/// kind, followed by what ends such a statement.
pub open spec fn sort_statement(sections: Sections, statement: ExprView, text: Seq<char>) -> Sections {
    match statement {
        ExprView::Struct { .. } => Sections { structs: sections.structs + text + ";\n"@, ..sections },
        ExprView::FnDeclaration { .. } => Sections { functions: sections.functions + text + "\n"@, ..sections },
        ExprView::While { .. } => Sections { code: sections.code + text + "\n"@, ..sections },
        ExprView::If { .. } => Sections { code: sections.code + text + "\n"@, ..sections },
        ExprView::IfElse { .. } => Sections { code: sections.code + text + "\n"@, ..sections },
        ExprView::Use(_) => Sections { includes: sections.includes + text + "\n"@, ..sections },
        _ => Sections { code: sections.code + text + ";\n"@, ..sections },
    }
}

/// The statements of a block from `i` on, emitted in `scope` and sorted into `acc`.
pub open spec fn emit_statements(block: Seq<ExprView>, i: nat, env: EnvView, scope: nat, in_fn: bool, root: RootView, acc: Sections) -> EmittedBlock
    decreases block, block.len() - i,
{
    if i >= block.len() {
        EmittedBlock { env, out: Ok(acc) }
    } else {
        let statement = emit(block[i as int], env, scope, in_fn, root);
        match statement.out {
            Err(error) => EmittedBlock { env: statement.env, out: Err(error) },
            Ok(text) => emit_statements(block, i + 1, statement.env, scope, in_fn, root, sort_statement(acc, block[i as int], text)),
        }
    }
}

/// Four empty streams.
pub open spec fn no_sections() -> Sections {
    Sections { includes: Seq::empty(), structs: Seq::empty(), functions: Seq::empty(), code: Seq::empty() }
}

/// A block: its statements, emitted in order in a new scope under `parent`.
pub open spec fn emit_block(block: Seq<ExprView>, env: EnvView, parent: Option<nat>, in_fn: bool, root: RootView) -> EmittedBlock
    decreases block, block.len() + 1,
{
    emit_statements(block, 0, env_add(env, parent), env.len(), in_fn, root, no_sections())
}

} // verus!
