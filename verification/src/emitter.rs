//! The emitter: lowers the syntax tree to C text, recording declarations in
//! the scope environment as it goes.

use vstd::prelude::*;
use vstd::string::StringExecFns;
use crate::clock::{Timestamp, stamp_text};
use crate::decimal::push_int;
use crate::emission::{
    RootView, Sections, c_type, call_head, declare_variable, declared_layout, emit, emit_args, emit_block, emit_fields,
    emit_statements, fn_arguments, include_path, marker, no_sections, operator_symbol, print_statements,
    register_fields, struct_lines, variable_name,
};
use crate::error::{Error, ErrorKind, ErrorView, failure};
use crate::expression::{Expression, ExprView, exprs_view, fields_view, pairs_view};
use crate::paths::{push_arrow_path, push_path, segment_texts, split_first, to_guard_name};
use crate::program::{VERSION, banner, compiled, executable_text, library_text, with_line};
use crate::scope::{
    Environment, EnvView, Variable, find_field, layout_view, lemma_statement_without_separator, parent_index,
    trim_separator, well_formed,
};
use crate::text::{chars_of, count_char, find_char, push_char, str_eq};
use crate::token::TokenType;

verus! {

/// Where the library modules are kept, as the caller found it by walking up
/// from the working directory.
#[derive(Debug, PartialEq, Eq)]
pub enum LibraryRoot {
    /// The components of the path of the directory that holds the marker
    /// directory; the root `/` of an absolute path is the first of them.
    Found(Vec<String>),
    /// The working directory could not be determined.
    NoWorkingDirectory,
    /// A component of the path is not valid text.
    Unreadable,
    /// No directory from the working directory upwards holds the marker directory.
    Missing,
}

impl View for LibraryRoot {
    type V = RootView;

    open spec fn view(&self) -> RootView {
        match self {
            LibraryRoot::Found(components) => RootView::Found(segment_texts(components@)),
            LibraryRoot::NoWorkingDirectory => RootView::NoWorkingDirectory,
            LibraryRoot::Unreadable => RootView::Unreadable,
            LibraryRoot::Missing => RootView::Missing,
        }
    }
}

/// Whether a result holds what the statement of it says: the same text, or
/// the same failure.
pub open spec fn meets(result: Result<String, Error>, out: Result<Seq<char>, ErrorView>) -> bool {
    match result {
        Ok(text) => out == Ok::<Seq<char>, ErrorView>(text@),
        Err(error) => out == Err::<Seq<char>, ErrorView>(error@),
    }
}

/// The layout as a plain value, if there is one.
pub open spec fn layout_option(layout: Option<Vec<(String, Variable)>>) -> Option<crate::scope::LayoutView> {
    match layout {
        Some(fields) => Some(layout_view(fields@)),
        None => None,
    }
}

/// The emitter of one compilation: the text written so far, the scope
/// environment, and where the library modules are kept.
pub struct Emitter {
    code: String,
    environment: Environment,
    root: LibraryRoot,
}

impl Emitter {
    /// The text written so far.
    pub closed spec fn code(self) -> Seq<char> {
        self.code@
    }

    /// The scope environment.
    pub closed spec fn env(self) -> EnvView {
        self.environment@
    }

    /// Where the library modules are kept.
    pub closed spec fn root(self) -> RootView {
        self.root@
    }

    /// Whether `next` differs from `self` in the environment at most, which
    /// has kept or gained scopes and is well formed.
    pub open spec fn grown_to(self, next: Self) -> bool {
        &&& next.code() == self.code()
        &&& next.root() == self.root()
        &&& self.env().len() <= next.env().len()
        &&& well_formed(next.env())
    }

    /// An emitter that has written nothing, has no scope, and knows no place
    /// where library modules are kept.
    pub fn new() -> (emitter: Self)
        ensures
            emitter.code() == Seq::<char>::empty(),
            emitter.env() == Seq::<crate::scope::ScopeView>::empty(),
            emitter.root() == RootView::Missing,
            well_formed(emitter.env()),
    {
        Self { code: String::new(), environment: Environment::new(), root: LibraryRoot::Missing }
    }

    /// Tells the emitter where the library modules are kept.
    pub fn set_library_root(&mut self, root: LibraryRoot)
        ensures
            final(self).root() == root@,
            final(self).code() == old(self).code(),
            final(self).env() == old(self).env(),
    {
        self.root = root;
    }

    /// The scope environment.
    pub fn environment(&self) -> (environment: &Environment)
        ensures
            environment@ == self.env(),
    {
        &self.environment
    }

    /// The C symbol of an operator.
    pub fn match_op(&self, op: TokenType) -> (symbol: Result<String, Error>)
        ensures
            match operator_symbol(op) {
                Some(text) => meets(symbol, Ok(text)),
                None => meets(symbol, Err(failure(ErrorKind::CouldNotEmit, "operation"@))),
            },
    {
        let op_str = match op {
            TokenType::Plus => "+",
            TokenType::Minus => "-",
            TokenType::Multiply => "*",
            TokenType::Divide => "/",
            TokenType::Greater => ">",
            TokenType::Less => "<",
            TokenType::Equal => "==",
            TokenType::Not => "!",
            TokenType::GreaterEqual => ">=",
            TokenType::LessEqual => "<=",
            _ => {
                return Err(Error::CouldNotEmit(String::from_str("operation")));
            },
        };
        Ok(String::from_str(op_str))
    }

    /// The C name of a type.
    pub fn match_type(&self, datatype: String, lhs: bool) -> (name: String)
        ensures
            name@ == c_type(datatype@, lhs),
    {
        let given = datatype.as_str();
        if str_eq(given, "int") {
            String::from_str("int")
        } else if str_eq(given, "flt") {
            String::from_str("float")
        } else if str_eq(given, "bln") {
            String::from_str("bool")
        } else if str_eq(given, "chr") {
            String::from_str("char")
        } else if str_eq(given, "nul") {
            String::from_str("void")
        } else if lhs {
            let mut name = String::from_str("struct ");
            name.append(given);
            name
        } else {
            let mut name = String::from_str("struct ");
            name.append(given);
            name.append(" *");
            name
        }
    }

    /// A variable name as it is written inside or outside a function.
    pub fn match_var(&self, var: String, in_fn: bool) -> (name: String)
        ensures
            name@ == variable_name(var@, in_fn),
    {
        if in_fn {
            let mut name = String::new();
            push_arrow_path(&mut name, var.as_str());
            name
        } else {
            var
        }
    }

    /// The path that a module is included by.
    pub fn match_module(&self, module: String) -> (path: Result<String, Error>)
        ensures
            meets(path, include_path(module@, self.root())),
    {
        let (top, rest) = split_first(module.as_str(), '/');
        if str_eq(top.as_str(), "std") {
            match &self.root {
                LibraryRoot::Found(components) => {
                    let mut below: Vec<String> = Vec::new();
                    let mut i: usize = 0;
                    while i < components.len()
                        invariant
                            i <= components.len(),
                            below.len() == i,
                            forall|j: int| 0 <= j < i ==> below@[j]@ == components@[j]@,
                        decreases components.len() - i,
                    {
                        below.push(components[i].clone());
                        i = i + 1;
                    }
                    below.push(String::from_str(".boron-std"));
                    assert(segment_texts(below@) =~= segment_texts(components@).push(marker()));
                    let mut path = String::new();
                    push_path(&mut path, &below);
                    let chars = chars_of(module.as_str());
                    if find_char(&chars, '/') < chars.len() {
                        push_char(&mut path, '/');
                        path.append(rest.as_str());
                    }
                    assert(path@ =~= include_path(module@, self.root())->Ok_0);
                    Ok(path)
                },
                LibraryRoot::NoWorkingDirectory => Err(Error::CouldNotGetCurrentDir),
                LibraryRoot::Unreadable => Err(Error::CouldNotEmit(String::from_str("use"))),
                LibraryRoot::Missing => Err(Error::CouldNotReadFile(module)),
            }
        } else {
            Ok(module)
        }
    }

    /// The statements that print the arguments of a call of `print`, with a
    /// separator between two and none after the last.
    pub fn emit_printf(&self, args: &Vec<Expression>, scope: usize, in_fn: bool) -> (text: Result<String, Error>)
        requires
            well_formed(self.env()),
            scope < self.env().len(),
        ensures
            meets(text, print_statements(exprs_view(args@), 0, self.env(), scope as nat, in_fn, Seq::empty(), false)),
    {
        let mut emitted = String::new();
        let mut any = false;
        let mut i: usize = 0;
        while i < args.len()
            invariant
                i <= args.len(),
                well_formed(self.env()),
                scope < self.env().len(),
                print_statements(exprs_view(args@), 0, self.env(), scope as nat, in_fn, Seq::empty(), false)
                    == print_statements(exprs_view(args@), i as nat, self.env(), scope as nat, in_fn, emitted@, any),
            decreases args.len() - i,
        {
            if let Expression::Identifier(id) = &args[i] {
                let var = match self.environment.lookup(scope, id) {
                    Ok(var) => var,
                    Err(error) => {
                        return Err(error);
                    },
                };
                if let Variable::Struct(_) = var {
                    return Err(Error::CouldNotEmit(id.clone()));
                }
                if any {
                    emitted.append(";\n");
                }
                let name = self.match_var(id.clone(), in_fn);
                proof {
                    lemma_statement_without_separator(var@, name@);
                }
                let statement = Variable::print(var, &name);
                emitted.append(trim_separator(&statement).as_str());
                any = true;
            }
            i = i + 1;
        }
        Ok(emitted)
    }

    /// Adds `s` and a line break to the text written so far.
    pub fn writeln(&mut self, s: &str)
        ensures
            final(self).code() == old(self).code() + s@ + "\n"@,
            final(self).env() == old(self).env(),
            final(self).root() == old(self).root(),
    {
        self.code.append(s);
        self.code.append("\n");
    }

    /// The lines of the fields of a struct definition after `acc`, and the
    /// layout that they declare.
    fn emit_struct_lines(&self, variables: &Vec<(String, String)>, acc: String) -> (r: (String, Vec<(String, Variable)>))
        ensures
            r.0@ == struct_lines(pairs_view(variables@), 0, acc@),
            layout_view(r.1@) == declared_layout(pairs_view(variables@)),
    {
        let mut emitted = acc;
        let mut layout: Vec<(String, Variable)> = Vec::new();
        let mut i: usize = 0;
        while i < variables.len()
            invariant
                i <= variables.len(),
                layout.len() == i,
                forall|j: int| 0 <= j < i ==> layout@[j].0@ == variables@[j].0@ && layout@[j].1@ == crate::scope::kind_of(variables@[j].1@),
                struct_lines(pairs_view(variables@), 0, acc@) == struct_lines(pairs_view(variables@), i as nat, emitted@),
            decreases variables.len() - i,
        {
            let field_type = self.match_type(variables[i].1.clone(), false);
            emitted.append(field_type.as_str());
            emitted.append(" ");
            emitted.append(variables[i].0.as_str());
            emitted.append(";\n");
            layout.push((variables[i].0.clone(), Variable::from(&variables[i].1)));
            i = i + 1;
        }
        (emitted, layout)
    }

    /// Declares the fields of `layout` in `scope` as the variables `instance.field`.
    fn register_layout(&mut self, scope: usize, instance: &str, layout: &Vec<(String, Variable)>)
        requires
            well_formed(old(self).env()),
            scope < old(self).env().len(),
        ensures
            final(self).env() == register_fields(old(self).env(), scope as nat, instance@, layout_view(layout@), 0),
            final(self).env().len() == old(self).env().len(),
            old(self).grown_to(*final(self)),
    {
        let mut i: usize = 0;
        while i < layout.len()
            invariant
                i <= layout.len(),
                self.env().len() == old(self).env().len(),
                scope < self.env().len(),
                old(self).grown_to(*self),
                register_fields(old(self).env(), scope as nat, instance@, layout_view(layout@), 0)
                    == register_fields(self.env(), scope as nat, instance@, layout_view(layout@), i as nat),
            decreases layout.len() - i,
        {
            let mut scoped = String::from_str(instance);
            scoped.append(".");
            scoped.append(layout[i].0.as_str());
            self.environment.register(scope, scoped, layout[i].1.duplicate());
            i = i + 1;
        }
    }

    /// Declares a variable of the type `datatype` in `scope`, and with it the
    /// fields of its struct if it is one.
    fn declare(&mut self, scope: usize, name: &String, datatype: &String) -> (r: Result<(), Error>)
        requires
            well_formed(old(self).env()),
            scope < old(self).env().len(),
        ensures
            final(self).env() == declare_variable(old(self).env(), scope as nat, name@, datatype@).0,
            final(self).env().len() == old(self).env().len(),
            old(self).grown_to(*final(self)),
            match r {
                Ok(_) => declare_variable(old(self).env(), scope as nat, name@, datatype@).1 is None,
                Err(error) => declare_variable(old(self).env(), scope as nat, name@, datatype@).1 == Some(error@),
            },
    {
        let kind = Variable::from(datatype);
        self.environment.register(scope, name.clone(), kind.duplicate());
        if let Variable::Struct(s) = kind {
            let layout = match self.environment.lookup_struct(scope, &s) {
                Ok(layout) => layout,
                Err(error) => {
                    return Err(error);
                },
            };
            self.register_layout(scope, name.as_str(), &layout);
        }
        Ok(())
    }

    /// The arguments of a function definition after `acc`, each declared in
    /// the scope `own` of the function.
    fn emit_fn_arguments(&mut self, arguments: &Vec<(String, String)>, own: usize, acc: String) -> (r: Result<String, Error>)
        requires
            well_formed(old(self).env()),
            own < old(self).env().len(),
        ensures
            final(self).env() == fn_arguments(pairs_view(arguments@), 0, old(self).env(), own as nat, acc@).env,
            meets(r, fn_arguments(pairs_view(arguments@), 0, old(self).env(), own as nat, acc@).out),
            final(self).env().len() == old(self).env().len(),
            old(self).grown_to(*final(self)),
    {
        let mut emitted = acc;
        let mut i: usize = 0;
        while i < arguments.len()
            invariant
                i <= arguments.len(),
                self.env().len() == old(self).env().len(),
                own < self.env().len(),
                old(self).grown_to(*self),
                fn_arguments(pairs_view(arguments@), 0, old(self).env(), own as nat, acc@)
                    == fn_arguments(pairs_view(arguments@), i as nat, self.env(), own as nat, emitted@),
            decreases arguments.len() - i,
        {
            let argument_type = self.match_type(arguments[i].1.clone(), false);
            emitted.append(argument_type.as_str());
            emitted.append(" ");
            emitted.append(arguments[i].0.as_str());
            if i + 1 < arguments.len() {
                emitted.append(", ");
            }
            match self.declare(own, &arguments[i].0, &arguments[i].1) {
                Ok(_) => {},
                Err(error) => {
                    return Err(error);
                },
            }
            i = i + 1;
        }
        Ok(emitted)
    }

    /// The arguments of a call after `acc`, and the closing `)`.
    #[verifier::loop_isolation(false)]
    fn emit_call_args(&mut self, args: &Vec<Expression>, scope: usize, in_fn: bool, acc: String) -> (r: Result<String, Error>)
        requires
            well_formed(old(self).env()),
            scope < old(self).env().len(),
        ensures
            final(self).env() == emit_args(exprs_view(args@), 0, old(self).env(), scope as nat, in_fn, old(self).root(), acc@).env,
            meets(r, emit_args(exprs_view(args@), 0, old(self).env(), scope as nat, in_fn, old(self).root(), acc@).out),
            old(self).grown_to(*final(self)),
        decreases args,
    {
        let mut emitted = acc;
        let mut i: usize = 0;
        while i < args.len()
            invariant
                i <= args.len(),
                scope < self.env().len(),
                old(self).grown_to(*self),
                emit_args(exprs_view(args@), 0, old(self).env(), scope as nat, in_fn, old(self).root(), acc@)
                    == emit_args(exprs_view(args@), i as nat, self.env(), scope as nat, in_fn, old(self).root(), emitted@),
            decreases args.len() - i,
        {
            if let Expression::Identifier(s) = &args[i] {
                emitted.append("&");
                emitted.append(s.as_str());
            } else {
                let argument = match self.emit(&args[i], scope, in_fn) {
                    Ok(argument) => argument,
                    Err(error) => {
                        return Err(error);
                    },
                };
                emitted.append(argument.as_str());
            }
            if i + 1 < args.len() {
                emitted.append(", ");
            }
            i = i + 1;
        }
        emitted.append(")");
        Ok(emitted)
    }

    /// The assignments to the fields of `instance` after `acc`. With a layout
    /// each field is declared as the variable `instance.field`.
    #[verifier::loop_isolation(false)]
    fn emit_fields(
        &mut self,
        fields: &Vec<(String, Expression)>,
        instance: &String,
        layout: &Option<Vec<(String, Variable)>>,
        scope: usize,
        in_fn: bool,
        acc: String,
    ) -> (r: Result<String, Error>)
        requires
            well_formed(old(self).env()),
            scope < old(self).env().len(),
        ensures
            final(self).env() == emit_fields(fields_view(fields@), 0, old(self).env(), scope as nat, in_fn, old(self).root(), instance@, layout_option(*layout), acc@).env,
            meets(r, emit_fields(fields_view(fields@), 0, old(self).env(), scope as nat, in_fn, old(self).root(), instance@, layout_option(*layout), acc@).out),
            old(self).grown_to(*final(self)),
        decreases fields,
    {
        let mut emitted = acc;
        let mut i: usize = 0;
        while i < fields.len()
            invariant
                i <= fields.len(),
                scope < self.env().len(),
                old(self).grown_to(*self),
                emit_fields(fields_view(fields@), 0, old(self).env(), scope as nat, in_fn, old(self).root(), instance@, layout_option(*layout), acc@)
                    == emit_fields(fields_view(fields@), i as nat, self.env(), scope as nat, in_fn, old(self).root(), instance@, layout_option(*layout), emitted@),
            decreases fields.len() - i,
        {
            let mut scoped = instance.clone();
            scoped.append(".");
            scoped.append(fields[i].0.as_str());
            let value = match self.emit(&fields[i].1, scope, in_fn) {
                Ok(value) => value,
                Err(error) => {
                    return Err(error);
                },
            };
            emitted.append(scoped.as_str());
            emitted.append(" = ");
            emitted.append(value.as_str());
            if i + 1 < fields.len() {
                emitted.append(";\n");
            }
            if let Some(known) = layout {
                match find_field(known, fields[i].0.as_str()) {
                    Some(kind) => {
                        self.environment.register(scope, scoped, kind);
                    },
                    None => {
                        return Err(Error::UndeclaredVariable(scoped));
                    },
                }
            }
            i = i + 1;
        }
        Ok(emitted)
    }

    /// Emits the statements of a block in a new scope under `parent`, sorted
    /// into four streams: includes, struct definitions, function definitions
    /// and ordinary code.
    #[verifier::loop_isolation(false)]
    pub fn emit_block(&mut self, block: &Vec<Expression>, parent: Option<usize>, in_fn: bool) -> (r: Result<(String, String, String, String), Error>)
        requires
            well_formed(old(self).env()),
            parent is Some ==> parent->0 < old(self).env().len(),
        ensures
            final(self).env() == emit_block(exprs_view(block@), old(self).env(), parent_index(parent), in_fn, old(self).root()).env,
            match r {
                Ok(streams) => emit_block(exprs_view(block@), old(self).env(), parent_index(parent), in_fn, old(self).root()).out
                    == Ok::<Sections, ErrorView>(Sections { includes: streams.0@, structs: streams.1@, functions: streams.2@, code: streams.3@ }),
                Err(error) => emit_block(exprs_view(block@), old(self).env(), parent_index(parent), in_fn, old(self).root()).out
                    == Err::<Sections, ErrorView>(error@),
            },
            old(self).grown_to(*final(self)),
        decreases block,
    {
        let scope = self.environment.add(parent);
        let mut code = String::new();
        let mut functions = String::new();
        let mut structs = String::new();
        let mut includes = String::new();
        let ghost begun = self.env();
        let mut i: usize = 0;
        while i < block.len()
            invariant
                i <= block.len(),
                scope < self.env().len(),
                old(self).grown_to(*self),
                emit_statements(exprs_view(block@), 0, begun, scope as nat, in_fn, old(self).root(), no_sections())
                    == emit_statements(
                    exprs_view(block@),
                    i as nat,
                    self.env(),
                    scope as nat,
                    in_fn,
                    old(self).root(),
                    Sections { includes: includes@, structs: structs@, functions: functions@, code: code@ },
                ),
            decreases block.len() - i,
        {
            let line = match self.emit(&block[i], scope, in_fn) {
                Ok(line) => line,
                Err(error) => {
                    return Err(error);
                },
            };
            match &block[i] {
                Expression::Struct { .. } => {
                    structs.append(line.as_str());
                    structs.append(";\n");
                },
                Expression::FnDeclaration { .. } => {
                    functions.append(line.as_str());
                    functions.append("\n");
                },
                Expression::While { .. } | Expression::If { .. } | Expression::IfElse { .. } => {
                    code.append(line.as_str());
                    code.append("\n");
                },
                Expression::Use(_) => {
                    includes.append(line.as_str());
                    includes.append("\n");
                },
                _ => {
                    code.append(line.as_str());
                    code.append(";\n");
                },
            }
            i = i + 1;
        }
        Ok((includes, structs, functions, code))
    }

    /// Emits one node of the syntax tree in the scope `scope`.
    #[verifier::rlimit(50)]
    pub fn emit(&mut self, expr: &Expression, scope: usize, in_fn: bool) -> (r: Result<String, Error>)
        requires
            well_formed(old(self).env()),
            scope < old(self).env().len(),
        ensures
            final(self).env() == emit(expr@, old(self).env(), scope as nat, in_fn, old(self).root()).env,
            meets(r, emit(expr@, old(self).env(), scope as nat, in_fn, old(self).root()).out),
            old(self).grown_to(*final(self)),
        decreases expr,
    {
        match expr {
            Expression::Int(i) => {
                let mut text = String::new();
                push_int(&mut text, *i);
                Ok(text)
            },
            Expression::Float(f) => Ok(f.clone()),
            Expression::Bool(b) => Ok(String::from_str(if *b { "true" } else { "false" })),
            Expression::Char(c) => {
                let mut text = String::from_str("'");
                push_char(&mut text, *c);
                text.append("'");
                Ok(text)
            },
            Expression::Identifier(s) => {
                if self.environment.check(scope, s) {
                    Ok(self.match_var(s.clone(), in_fn))
                } else {
                    Err(Error::UndeclaredVariable(s.clone()))
                }
            },
            Expression::Reference(s) => Ok(self.match_var(s.clone(), in_fn)),
            Expression::Type(t) => Err(Error::CouldNotEmit(t.clone())),
            Expression::UnaryOp { op, expr: operand } => {
                let symbol = self.match_op(*op)?;
                let text = self.emit(operand, scope, in_fn)?;
                Ok(unary_text(&symbol, &text))
            },
            Expression::BinOp { left, op, right } => {
                let left_text = self.emit(left, scope, in_fn)?;
                let symbol = self.match_op(*op)?;
                let right_text = self.emit(right, scope, in_fn)?;
                Ok(binary_text(&left_text, &symbol, &right_text))
            },
            Expression::Declaration { datatype, identifier } => {
                let mut emitted = self.match_type(datatype.clone(), false);
                emitted.append(" ");
                emitted.append(identifier.as_str());
                Ok(emitted)
            },
            Expression::Struct { identifier, variables } => {
                let (mut emitted, layout) = self.emit_struct_lines(variables, struct_opening(identifier));
                self.environment.register_struct(scope, identifier.clone(), layout);
                emitted.append("}");
                Ok(emitted)
            },
            Expression::StructInit { identifier, name, variables } => {
                if name.as_str().unicode_len() == 0 {
                    return Err(Error::FoundBareStruct);
                }
                let layout = self.environment.lookup_struct(scope, identifier)?;
                self.emit_fields(variables, name, &Some(layout), scope, in_fn, instance_opening(identifier, name))
            },
            Expression::Assignment { datatype, identifier, value } => {
                if let Expression::StructInit { variables, .. } = &**value {
                    assert(value@ matches ExprView::StructInit { variables: v, .. } && v == fields_view(variables@));
                    self.environment.register(scope, identifier.clone(), Variable::from(datatype));
                    let layout = self.environment.lookup_struct(scope, datatype)?;
                    self.emit_fields(variables, identifier, &Some(layout), scope, in_fn, instance_opening(datatype, identifier))
                } else {
                    self.declare(scope, identifier, datatype)?;
                    let text = self.emit(value, scope, in_fn)?;
                    let mut emitted = self.match_type(datatype.clone(), true);
                    emitted.append(" ");
                    emitted.append(self.match_var(identifier.clone(), in_fn).as_str());
                    emitted.append(" = ");
                    emitted.append(text.as_str());
                    Ok(emitted)
                }
            },
            Expression::Reassignment { identifier, value } => {
                if !self.environment.check(scope, identifier) {
                    return Err(Error::UndeclaredVariable(identifier.clone()));
                }
                if let Expression::StructInit { variables, .. } = &**value {
                    self.emit_fields(variables, identifier, &None, scope, in_fn, String::new())
                } else {
                    assert(!(value@ is StructInit));
                    let text = self.emit(value, scope, in_fn)?;
                    let mut emitted = self.match_var(identifier.clone(), in_fn);
                    emitted.append(" = ");
                    emitted.append(text.as_str());
                    Ok(emitted)
                }
            },
            Expression::FnCall { name, args } => {
                if str_eq(name.as_str(), "print") {
                    self.emit_printf(args, scope, in_fn)
                } else {
                    let head = call_opening(name, args.len())?;
                    self.emit_call_args(args, scope, in_fn, head)
                }
            },
            Expression::While { condition, body } => {
                let test = self.emit(condition, scope, in_fn)?;
                let streams = self.emit_block(body, Some(scope), in_fn)?;
                Ok(block_text("while (", &test, &streams.3))
            },
            Expression::If { condition, body } => {
                let test = self.emit(condition, scope, in_fn)?;
                let streams = self.emit_block(body, Some(scope), in_fn)?;
                Ok(block_text("if (", &test, &streams.3))
            },
            Expression::IfElse { condition, body_true, body_false } => {
                let test = self.emit(condition, scope, in_fn)?;
                let taken = self.emit_block(body_true, Some(scope), in_fn)?;
                let other = self.emit_block(body_false, Some(scope), in_fn)?;
                Ok(if_else_text(&test, &taken.3, &other.3))
            },
            Expression::TernaryIfElse { condition, body_true, body_false } => {
                let test = self.emit(condition, scope, in_fn)?;
                let taken = self.emit(body_true, scope, in_fn)?;
                let other = self.emit(body_false, scope, in_fn)?;
                Ok(ternary_text(&test, &taken, &other))
            },
            Expression::FnDeclaration { identifier, arguments, return_type, body } => {
                let mut opening = self.match_type(return_type.clone(), true);
                opening.append(" ");
                opening.append(identifier.as_str());
                opening.append("(");
                let own = self.environment.add(Some(scope));
                let mut emitted = self.emit_fn_arguments(arguments, own, opening)?;
                let streams = self.emit_block(body, Some(own), true)?;
                emitted.append(") {\n");
                emitted.append(streams.3.as_str());
                emitted.append("}");
                Ok(emitted)
            },
            Expression::Return(value) => {
                let text = self.emit(value, scope, true)?;
                let mut emitted = String::from_str("return ");
                emitted.append(text.as_str());
                Ok(emitted)
            },
            Expression::Use(module) => {
                let path = self.match_module(module.clone())?;
                let mut emitted = String::from_str("#include \"");
                emitted.append(path.as_str());
                emitted.append(".h\"");
                Ok(emitted)
            },
        }
    }
}

/// `(`, the operator, the operand, `)`.
fn unary_text(symbol: &String, operand: &String) -> (text: String)
    ensures
        text@ == "("@ + symbol@ + operand@ + ")"@,
{
    let mut text = String::from_str("(");
    text.append(symbol.as_str());
    text.append(operand.as_str());
    text.append(")");
    text
}

/// `(`, the left operand, the operator between two spaces, the right operand, `)`.
fn binary_text(left: &String, symbol: &String, right: &String) -> (text: String)
    ensures
        text@ == "("@ + left@ + " "@ + symbol@ + " "@ + right@ + ")"@,
{
    let mut text = String::from_str("(");
    text.append(left.as_str());
    text.append(" ");
    text.append(symbol.as_str());
    text.append(" ");
    text.append(right.as_str());
    text.append(")");
    text
}

/// The first line of a struct definition.
fn struct_opening(identifier: &String) -> (text: String)
    ensures
        text@ == "struct "@ + identifier@ + " {\n"@,
{
    let mut text = String::from_str("struct ");
    text.append(identifier.as_str());
    text.append(" {\n");
    text
}

/// The declaration of an instance of a struct.
fn instance_opening(structure: &String, instance: &String) -> (text: String)
    ensures
        text@ == "struct "@ + structure@ + " "@ + instance@ + ";\n"@,
{
    let mut text = String::from_str("struct ");
    text.append(structure.as_str());
    text.append(" ");
    text.append(instance.as_str());
    text.append(";\n");
    text
}

/// The opening of a call.
fn call_opening(name: &String, arguments: usize) -> (head: Result<String, Error>)
    ensures
        meets(head, call_head(name@, arguments as nat)),
{
    let dots = count_char(&chars_of(name.as_str()), '.');
    if dots == 0 {
        let mut head = name.clone();
        head.append("(");
        Ok(head)
    } else if dots == 1 {
        let (receiver, method) = split_first(name.as_str(), '.');
        let mut head = method;
        head.append("(&");
        head.append(receiver.as_str());
        if arguments != 0 {
            head.append(", ");
        }
        Ok(head)
    } else {
        Err(Error::TooManyLeadingKeywords(name.clone()))
    }
}

/// A loop or a conditional: the keyword with `(`, the test, and the block in braces.
fn block_text(keyword: &str, test: &String, block: &String) -> (text: String)
    ensures
        text@ == keyword@ + test@ + ") {\n"@ + block@ + "}"@,
{
    let mut text = String::from_str(keyword);
    text.append(test.as_str());
    text.append(") {\n");
    text.append(block.as_str());
    text.append("}");
    text
}

/// A conditional with its alternative.
fn if_else_text(test: &String, taken: &String, other: &String) -> (text: String)
    ensures
        text@ == "if ("@ + test@ + ") {\n"@ + taken@ + "} else {\n"@ + other@ + "}"@,
{
    let mut text = String::from_str("if (");
    text.append(test.as_str());
    text.append(") {\n");
    text.append(taken.as_str());
    text.append("} else {\n");
    text.append(other.as_str());
    text.append("}");
    text
}

/// A conditional expression.
fn ternary_text(test: &String, taken: &String, other: &String) -> (text: String)
    ensures
        text@ == "("@ + test@ + " ? "@ + taken@ + " : "@ + other@ + ")"@,
{
    let mut text = String::from_str("(");
    text.append(test.as_str());
    text.append(" ? ");
    text.append(taken.as_str());
    text.append(" : ");
    text.append(other.as_str());
    text.append(")");
    text
}

fn push_line(out: &mut String, line: &str)
    ensures
        final(out)@ == with_line(old(out)@, line@),
{
    out.append(line);
    out.append("\n");
}

fn banner_text(title: &str, stamp: &Timestamp) -> (text: String)
    ensures
        text@ == banner(title@, *stamp),
{
    let mut text = String::new();
    push_line(&mut text, title);
    let mut version = String::from_str("// Version ");
    version.append(VERSION);
    push_line(&mut text, version.as_str());
    push_line(&mut text, stamp_text(stamp).as_str());
    push_line(&mut text, "");
    text
}

impl Emitter {
    /// Compiles a program into a C program: the banner of the given moment,
    /// the includes, the struct definitions, the function definitions, and
    /// the ordinary code as the body of `main`. The text is added to what was
    /// written before and returned with it; a failure writes nothing.
    pub fn compile_exe(&mut self, expressions: Vec<Expression>, stamp: &Timestamp) -> (r: Result<String, Error>)
        requires
            well_formed(old(self).env()),
        ensures
            compiled(*old(self), exprs_view(expressions@), |sections: Sections| executable_text(*stamp, sections), *final(self), r),
    {
        let (includes, structs, functions, code) = self.emit_block(&expressions, None, false)?;
        let mut text = banner_text("// Executable autogenerated by the Boron compiler", stamp);
        push_line(&mut text, "#include <stdio.h>");
        push_line(&mut text, "#include <stdbool.h>");
        push_line(&mut text, includes.as_str());
        push_line(&mut text, "");
        push_line(&mut text, "// Structs begin here");
        push_line(&mut text, structs.as_str());
        push_line(&mut text, "// Functions begin here");
        push_line(&mut text, functions.as_str());
        push_line(&mut text, "int main(void) {");
        push_line(&mut text, code.as_str());
        push_line(&mut text, "return 0;\n}");
        self.code.append(text.as_str());
        Ok(self.code.clone())
    }

    /// Compiles the module `name` into a C header: the banner of the given
    /// moment and, inside a header guard, the includes, the struct
    /// definitions and the function definitions. The text is added to what
    /// was written before and returned with it; a failure writes nothing.
    pub fn compile_lib(&mut self, name: String, expressions: Vec<Expression>, stamp: &Timestamp) -> (r: Result<String, Error>)
        requires
            well_formed(old(self).env()),
        ensures
            compiled(*old(self), exprs_view(expressions@), |sections: Sections| library_text(name@, *stamp, sections), *final(self), r),
    {
        let (includes, structs, functions, _) = self.emit_block(&expressions, None, false)?;
        let upper_name = to_guard_name(name.as_str());
        let mut guard = String::from_str("#ifndef ");
        guard.append(upper_name.as_str());
        guard.append("\n#define ");
        guard.append(upper_name.as_str());
        let mut text = banner_text("// Library autogenerated by the Boron compiler", stamp);
        push_line(&mut text, guard.as_str());
        push_line(&mut text, "");
        push_line(&mut text, "#include <stdio.h>");
        push_line(&mut text, "#include <stdbool.h>");
        push_line(&mut text, "");
        push_line(&mut text, "// Additional includes begin here");
        push_line(&mut text, includes.as_str());
        push_line(&mut text, "");
        push_line(&mut text, "// Structs begin here");
        push_line(&mut text, structs.as_str());
        push_line(&mut text, "// Functions begin here");
        push_line(&mut text, functions.as_str());
        push_line(&mut text, "#endif");
        self.code.append(text.as_str());
        Ok(self.code.clone())
    }
}

} // verus!
