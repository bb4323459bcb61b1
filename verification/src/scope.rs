//! The scope environment: a tree of lexical scopes, each with the kinds of its
//! variables and the layouts of its structs.
//!
//! The scopes live in one list that only grows. A scope is named by its
//! index in that list, and its parent, if it has one, stands before it.

use vstd::prelude::*;
use vstd::string::StringExecFns;
use crate::error::{Error, ErrorKind, failure};
use crate::text::{char_at, chars_of, push_range, str_eq};

verus! {

/// The kind of a variable.
#[derive(Debug, PartialEq, Eq)]
pub enum Variable {
    Int,
    Float,
    Bool,
    Char,
    Void,
    /// An instance of the struct with the given name.
    Struct(String),
}

/// The kind of a variable as a plain value.
pub enum Kind {
    Int,
    Float,
    Bool,
    Char,
    Void,
    Struct(Seq<char>),
}

impl View for Variable {
    type V = Kind;

    open spec fn view(&self) -> Kind {
        match self {
            Variable::Int => Kind::Int,
            Variable::Float => Kind::Float,
            Variable::Bool => Kind::Bool,
            Variable::Char => Kind::Char,
            Variable::Void => Kind::Void,
            Variable::Struct(name) => Kind::Struct(name@),
        }
    }
}

/// The kind that a type name stands for: one of the five keywords, or else
/// the struct of that name.
pub open spec fn kind_of(name: Seq<char>) -> Kind {
    if name == "int"@ {
        Kind::Int
    } else if name == "flt"@ {
        Kind::Float
    } else if name == "bln"@ {
        Kind::Bool
    } else if name == "chr"@ {
        Kind::Char
    } else if name == "nul"@ {
        Kind::Void
    } else {
        Kind::Struct(name)
    }
}

/// The call that prints the variable `name` of the given kind. A struct has
/// no such call.
pub open spec fn print_call(kind: Kind, name: Seq<char>) -> Seq<char> {
    match kind {
        Kind::Int => "printf(\"%d\\n\", "@ + name + ")"@,
        Kind::Float => "printf(\"%f\\n\", "@ + name + ")"@,
        Kind::Bool => "printf("@ + name + " ? \"true\\n\" : \"false\\n\")"@,
        Kind::Char => "printf(\"%c\\n\", "@ + name + ")"@,
        Kind::Void => "printf(\"\\n\")"@,
        Kind::Struct(_) => Seq::empty(),
    }
}

/// The statement that prints the variable `name` of the given kind: the
/// call, and after it the separator that ends a statement, but for the bare
/// line break of a variable without a value, which stands without one.
pub open spec fn print_statement(kind: Kind, name: Seq<char>) -> Seq<char> {
    match kind {
        Kind::Void => print_call(kind, name),
        Kind::Struct(_) => Seq::empty(),
        _ => print_call(kind, name) + ";\n"@,
    }
}

/// Whether a text ends with the separator that ends a statement.
pub open spec fn ends_statement(text: Seq<char>) -> bool {
    text.len() >= 2 && text[text.len() - 2] == ';' && text[text.len() - 1] == '\n'
}

/// The text without the separator at its end, if one stands there.
pub open spec fn without_separator(text: Seq<char>) -> Seq<char> {
    if ends_statement(text) {
        text.subrange(0, text.len() - 2)
    } else {
        text
    }
}

/// A print statement without its separator is the call.
pub proof fn lemma_statement_without_separator(kind: Kind, name: Seq<char>)
    requires
        !(kind is Struct),
    ensures
        without_separator(print_statement(kind, name)) == print_call(kind, name),
{
    reveal_strlit(";\n");
    reveal_strlit("printf(\"\\n\")");
    let call = print_call(kind, name);
    if !(kind is Void) {
        assert((call + ";\n"@).subrange(0, (call + ";\n"@).len() - 2) =~= call);
    }
}

/// The text without the separator at its end, if one stands there.
pub fn trim_separator(text: &String) -> (trimmed: String)
    ensures
        trimmed@ == without_separator(text@),
{
    let chars = chars_of(text.as_str());
    let n = chars.len();
    if n >= 2 && char_at(&chars, n - 2) == ';' && char_at(&chars, n - 1) == '\n' {
        let mut trimmed = String::new();
        push_range(&mut trimmed, &chars, 0, n - 2);
        trimmed
    } else {
        text.clone()
    }
}

impl Variable {
    /// The kind that a type name stands for.
    pub fn from(string: &String) -> (kind: Self)
        ensures
            kind@ == kind_of(string@),
    {
        let name = string.as_str();
        if str_eq(name, "int") {
            Variable::Int
        } else if str_eq(name, "flt") {
            Variable::Float
        } else if str_eq(name, "bln") {
            Variable::Bool
        } else if str_eq(name, "chr") {
            Variable::Char
        } else if str_eq(name, "nul") {
            Variable::Void
        } else {
            Variable::Struct(string.clone())
        }
    }

    /// The statement that prints the variable `id` of kind `var`, with the
    /// separator that ends it where the kind has one.
    pub fn print(var: Self, id: &String) -> (statement: String)
        requires
            !(var is Struct),
        ensures
            statement@ == print_statement(var@, id@),
    {
        match var {
            Variable::Int => {
                let mut emitted = String::from_str("printf(\"%d\\n\", ");
                emitted.append(id.as_str());
                emitted.append(")");
                emitted.append(";\n");
                emitted
            },
            Variable::Float => {
                let mut emitted = String::from_str("printf(\"%f\\n\", ");
                emitted.append(id.as_str());
                emitted.append(")");
                emitted.append(";\n");
                emitted
            },
            Variable::Bool => {
                let mut emitted = String::from_str("printf(");
                emitted.append(id.as_str());
                emitted.append(" ? \"true\\n\" : \"false\\n\")");
                emitted.append(";\n");
                emitted
            },
            Variable::Char => {
                let mut emitted = String::from_str("printf(\"%c\\n\", ");
                emitted.append(id.as_str());
                emitted.append(")");
                emitted.append(";\n");
                emitted
            },
            Variable::Void => String::from_str("printf(\"\\n\")"),
            Variable::Struct(_) => String::new(),
        }
    }

    /// A copy of this kind.
    pub fn duplicate(&self) -> (kind: Self)
        ensures
            kind@ == self@,
    {
        match self {
            Variable::Int => Variable::Int,
            Variable::Float => Variable::Float,
            Variable::Bool => Variable::Bool,
            Variable::Char => Variable::Char,
            Variable::Void => Variable::Void,
            Variable::Struct(name) => Variable::Struct(name.clone()),
        }
    }
}

impl Clone for Variable {
    fn clone(&self) -> (kind: Self)
        ensures
            kind@ == self@,
    {
        self.duplicate()
    }
}

/// The layout of a struct as plain values: its fields in order, each a name and a kind.
pub type LayoutView = Seq<(Seq<char>, Kind)>;

/// The fields of a layout as plain values.
pub open spec fn layout_view(fields: Seq<(String, Variable)>) -> LayoutView {
    Seq::new(fields.len(), |i: int| (fields[i].0@, fields[i].1@))
}

/// The index of the first field at or after `from` that is called `name`, or
/// the number of fields.
pub open spec fn field_index_from(layout: LayoutView, name: Seq<char>, from: int) -> int
    decreases layout.len() - from,
{
    if from < 0 || from >= layout.len() {
        layout.len() as int
    } else if layout[from].0 == name {
        from
    } else {
        field_index_from(layout, name, from + 1)
    }
}

/// The kind of the first field called `name`, if the layout has one.
pub open spec fn field_kind(layout: LayoutView, name: Seq<char>) -> Option<Kind> {
    let at = field_index_from(layout, name, 0);
    if at < layout.len() {
        Some(layout[at].1)
    } else {
        None
    }
}

/// The kind of the first field called `name`, if the layout has one.
pub fn find_field(fields: &Vec<(String, Variable)>, name: &str) -> (found: Option<Variable>)
    ensures
        found is Some <==> field_kind(layout_view(fields@), name@) is Some,
        found is Some ==> found->0@ == field_kind(layout_view(fields@), name@)->0,
{
    let ghost layout = layout_view(fields@);
    let mut i: usize = 0;
    while i < fields.len()
        invariant
            i <= fields.len(),
            layout == layout_view(fields@),
            field_index_from(layout, name@, 0) == field_index_from(layout, name@, i as int),
        decreases fields.len() - i,
    {
        if str_eq(fields[i].0.as_str(), name) {
            return Some(fields[i].1.duplicate());
        }
        i = i + 1;
    }
    None
}

/// A copy of a layout.
pub fn copy_layout(fields: &Vec<(String, Variable)>) -> (copy: Vec<(String, Variable)>)
    ensures
        layout_view(copy@) == layout_view(fields@),
{
    let mut copy: Vec<(String, Variable)> = Vec::new();
    let mut i: usize = 0;
    while i < fields.len()
        invariant
            i <= fields.len(),
            copy.len() == i,
            forall|j: int| 0 <= j < i ==> copy@[j].0@ == fields@[j].0@ && copy@[j].1@ == fields@[j].1@,
        decreases fields.len() - i,
    {
        copy.push((fields[i].0.clone(), fields[i].1.duplicate()));
        i = i + 1;
    }
    copy
}

/// The variables that a list of registrations declares: of several with one
/// name the last one counts.
pub open spec fn kinds_map(entries: Seq<(String, Variable)>) -> Map<Seq<char>, Kind>
    decreases entries.len(),
{
    if entries.len() == 0 {
        Map::empty()
    } else {
        kinds_map(entries.drop_last()).insert(entries.last().0@, entries.last().1@)
    }
}

/// The structs that a list of registrations declares: of several with one
/// name the last one counts.
pub open spec fn layouts_map(entries: Seq<(String, Vec<(String, Variable)>)>) -> Map<Seq<char>, LayoutView>
    decreases entries.len(),
{
    if entries.len() == 0 {
        Map::empty()
    } else {
        layouts_map(entries.drop_last()).insert(entries.last().0@, layout_view(entries.last().1@))
    }
}

/// A scope as plain values.
pub struct ScopeView {
    /// The kind of each variable declared in this scope.
    pub variables: Map<Seq<char>, Kind>,
    /// The layout of each struct declared in this scope.
    pub structs: Map<Seq<char>, LayoutView>,
    /// The index of this scope.
    pub id: nat,
    /// The index of the enclosing scope, if there is one.
    pub parent: Option<nat>,
}

/// One lexical scope.
#[derive(Debug)]
pub struct Scope {
    variables: Vec<(String, Variable)>,
    structs: Vec<(String, Vec<(String, Variable)>)>,
    id: usize,
    parent: Option<usize>,
}

impl View for Scope {
    type V = ScopeView;

    closed spec fn view(&self) -> ScopeView {
        ScopeView {
            variables: kinds_map(self.variables@),
            structs: layouts_map(self.structs@),
            id: self.id as nat,
            parent: match self.parent {
                Some(p) => Some(p as nat),
                None => None,
            },
        }
    }
}

impl Scope {
    /// The index of this scope.
    pub fn get_id(&self) -> (id: usize)
        ensures
            id == self@.id,
    {
        self.id
    }

    /// The index of the enclosing scope.
    pub fn get_parent(&self) -> (parent: Option<usize>)
        ensures
            parent is Some <==> self@.parent is Some,
            parent is Some ==> parent->0 == self@.parent->0,
    {
        self.parent
    }

    /// Declares a variable in this scope, in place of any of the same name.
    pub fn register(&mut self, varname: String, variable: Variable)
        ensures
            final(self)@ == (ScopeView { variables: old(self)@.variables.insert(varname@, variable@), ..old(self)@ }),
    {
        self.variables.push((varname, variable));
        assert(self.variables@.drop_last() == old(self).variables@);
    }

    /// Declares a struct in this scope, in place of any of the same name.
    pub fn register_struct(&mut self, varname: String, structure: Vec<(String, Variable)>)
        ensures
            final(self)@ == (ScopeView { structs: old(self)@.structs.insert(varname@, layout_view(structure@)), ..old(self)@ }),
    {
        self.structs.push((varname, structure));
        assert(self.structs@.drop_last() == old(self).structs@);
    }

    /// The kind of the variable `varname`, if this scope declares it.
    pub fn get(&self, varname: &String) -> (found: Option<&Variable>)
        ensures
            found is Some <==> self@.variables.contains_key(varname@),
            found is Some ==> found->0@ == self@.variables[varname@],
    {
        let mut i: usize = self.variables.len();
        assert(self.variables@.take(i as int) == self.variables@);
        while i > 0
            invariant
                i <= self.variables.len(),
                kinds_map(self.variables@).contains_key(varname@) == kinds_map(self.variables@.take(i as int)).contains_key(varname@),
                kinds_map(self.variables@).contains_key(varname@) ==> kinds_map(self.variables@)[varname@] == kinds_map(self.variables@.take(i as int))[varname@],
            decreases i,
        {
            i = i - 1;
            assert(self.variables@.take(i + 1).drop_last() == self.variables@.take(i as int));
            if self.variables[i].0 == *varname {
                return Some(&self.variables[i].1);
            }
        }
        None
    }

    /// The layout of the struct `varname`, if this scope declares it.
    pub fn get_struct(&self, varname: &String) -> (found: Option<&Vec<(String, Variable)>>)
        ensures
            found is Some <==> self@.structs.contains_key(varname@),
            found is Some ==> layout_view(found->0@) == self@.structs[varname@],
    {
        let mut i: usize = self.structs.len();
        assert(self.structs@.take(i as int) == self.structs@);
        while i > 0
            invariant
                i <= self.structs.len(),
                layouts_map(self.structs@).contains_key(varname@) == layouts_map(self.structs@.take(i as int)).contains_key(varname@),
                layouts_map(self.structs@).contains_key(varname@) ==> layouts_map(self.structs@)[varname@] == layouts_map(self.structs@.take(i as int))[varname@],
            decreases i,
        {
            i = i - 1;
            assert(self.structs@.take(i + 1).drop_last() == self.structs@.take(i as int));
            if self.structs[i].0 == *varname {
                return Some(&self.structs[i].1);
            }
        }
        None
    }
}

/// The scopes of an environment as plain values, each at its index.
pub type EnvView = Seq<ScopeView>;

/// Whether each scope knows its index and has its parent, if any, before it.
pub open spec fn well_formed(env: EnvView) -> bool {
    forall|i: int| 0 <= i < env.len() ==> (#[trigger] env[i]).id == i && (env[i].parent is Some ==> env[i].parent->0 < i)
}

/// The parent of a scope as a plain value.
pub open spec fn parent_index(parent: Option<usize>) -> Option<nat> {
    match parent {
        Some(p) => Some(p as nat),
        None => None,
    }
}

/// The environment with a new empty scope under `parent` at its end.
pub open spec fn env_add(env: EnvView, parent: Option<nat>) -> EnvView {
    env.push(ScopeView { variables: Map::empty(), structs: Map::empty(), id: env.len(), parent })
}

/// The environment with the variable `name` declared in the scope `id`, and in no other.
pub open spec fn env_register(env: EnvView, id: nat, name: Seq<char>, kind: Kind) -> EnvView {
    if id < env.len() {
        env.update(id as int, ScopeView { variables: env[id as int].variables.insert(name, kind), ..env[id as int] })
    } else {
        env
    }
}

/// The environment with the struct `name` declared in the scope `id`, and in no other.
pub open spec fn env_register_struct(env: EnvView, id: nat, name: Seq<char>, layout: LayoutView) -> EnvView {
    if id < env.len() {
        env.update(id as int, ScopeView { structs: env[id as int].structs.insert(name, layout), ..env[id as int] })
    } else {
        env
    }
}

/// The kind of the variable `name` as seen from the scope `id`: that of the
/// nearest scope, from `id` up through its ancestors, that declares it.
pub open spec fn resolve(env: EnvView, id: nat, name: Seq<char>) -> Option<Kind>
    decreases id,
{
    if id >= env.len() {
        None
    } else if env[id as int].variables.contains_key(name) {
        Some(env[id as int].variables[name])
    } else {
        match env[id as int].parent {
            Some(p) => if p < id { resolve(env, p, name) } else { None },
            None => None,
        }
    }
}

/// The layout of the struct `name` as seen from the scope `id`: that of the
/// nearest scope, from `id` up through its ancestors, that declares it.
pub open spec fn resolve_struct(env: EnvView, id: nat, name: Seq<char>) -> Option<LayoutView>
    decreases id,
{
    if id >= env.len() {
        None
    } else if env[id as int].structs.contains_key(name) {
        Some(env[id as int].structs[name])
    } else {
        match env[id as int].parent {
            Some(p) => if p < id { resolve_struct(env, p, name) } else { None },
            None => None,
        }
    }
}

/// The list of scopes of one compilation.
#[derive(Debug)]
pub struct Environment {
    scopes: Vec<Scope>,
}

impl View for Environment {
    type V = EnvView;

    closed spec fn view(&self) -> EnvView {
        Seq::new(self.scopes.len() as nat, |i: int| self.scopes[i]@)
    }
}

impl Environment {
    /// An environment without scopes.
    pub fn new() -> (env: Self)
        ensures
            env@ == Seq::<ScopeView>::empty(),
            well_formed(env@),
    {
        Self { scopes: Vec::new() }
    }

    /// How many scopes there are.
    pub fn len(&self) -> (n: usize)
        ensures
            n == self@.len(),
    {
        self.scopes.len()
    }

    /// The scope with the index `id`.
    pub fn scope(&self, id: usize) -> (scope: &Scope)
        requires
            id < self@.len(),
        ensures
            scope@ == self@[id as int],
    {
        &self.scopes[id]
    }

    /// Appends a new empty scope under `parent` and returns its index.
    pub fn add(&mut self, parent: Option<usize>) -> (id: usize)
        requires
            well_formed(old(self)@),
            parent is Some ==> parent->0 < old(self)@.len(),
        ensures
            id == old(self)@.len(),
            final(self)@ == env_add(old(self)@, parent_index(parent)),
            well_formed(final(self)@),
    {
        let new = Scope { variables: Vec::new(), structs: Vec::new(), id: self.scopes.len(), parent };
        let id = new.get_id();
        self.scopes.push(new);
        id
    }

    /// Declares a variable in the scope `id`.
    pub fn register(&mut self, id: usize, varname: String, variable: Variable)
        requires
            well_formed(old(self)@),
            id < old(self)@.len(),
        ensures
            final(self)@ == env_register(old(self)@, id as nat, varname@, variable@),
            well_formed(final(self)@),
    {
        self.scopes[id].register(varname, variable);
    }

    /// Declares a struct in the scope `id`.
    pub fn register_struct(&mut self, id: usize, varname: String, structure: Vec<(String, Variable)>)
        requires
            well_formed(old(self)@),
            id < old(self)@.len(),
        ensures
            final(self)@ == env_register_struct(old(self)@, id as nat, varname@, layout_view(structure@)),
            well_formed(final(self)@),
    {
        self.scopes[id].register_struct(varname, structure);
    }

    /// The kind of the variable `varname` as seen from the scope `id`.
    pub fn lookup(&self, id: usize, varname: &String) -> (found: Result<Variable, Error>)
        requires
            well_formed(self@),
            id < self@.len(),
        ensures
            match found {
                Ok(kind) => resolve(self@, id as nat, varname@) == Some(kind@),
                Err(e) => resolve(self@, id as nat, varname@) is None && e@ == failure(ErrorKind::UndeclaredVariable, varname@),
            },
        decreases id,
    {
        match self.scopes[id].get(varname) {
            Some(s) => Ok(s.duplicate()),
            None => match self.scopes[id].get_parent() {
                Some(p) => self.lookup(p, varname),
                None => Err(Error::UndeclaredVariable(varname.clone())),
            },
        }
    }

    /// Whether the variable `varname` can be seen from the scope `id`.
    pub fn check(&self, id: usize, varname: &String) -> (found: bool)
        requires
            well_formed(self@),
            id < self@.len(),
        ensures
            found == resolve(self@, id as nat, varname@) is Some,
        decreases id,
    {
        match self.scopes[id].get(varname) {
            Some(_) => true,
            None => match self.scopes[id].get_parent() {
                Some(p) => self.check(p, varname),
                None => false,
            },
        }
    }

    /// The layout of the struct `varname` as seen from the scope `id`.
    pub fn lookup_struct(&self, id: usize, varname: &String) -> (found: Result<Vec<(String, Variable)>, Error>)
        requires
            well_formed(self@),
            id < self@.len(),
        ensures
            match found {
                Ok(layout) => resolve_struct(self@, id as nat, varname@) == Some(layout_view(layout@)),
                Err(e) => resolve_struct(self@, id as nat, varname@) is None && e@ == failure(ErrorKind::UndeclaredVariable, varname@),
            },
        decreases id,
    {
        match self.scopes[id].get_struct(varname) {
            Some(s) => Ok(copy_layout(s)),
            None => match self.scopes[id].get_parent() {
                Some(p) => self.lookup_struct(p, varname),
                None => Err(Error::UndeclaredVariable(varname.clone())),
            },
        }
    }

    /// Whether the struct `varname` can be seen from the scope `id`.
    pub fn check_struct(&self, id: usize, varname: &String) -> (found: bool)
        requires
            well_formed(self@),
            id < self@.len(),
        ensures
            found == resolve_struct(self@, id as nat, varname@) is Some,
        decreases id,
    {
        match self.scopes[id].get_struct(varname) {
            Some(_) => true,
            None => match self.scopes[id].get_parent() {
                Some(p) => self.check_struct(p, varname),
                None => false,
            },
        }
    }
}

} // verus!
