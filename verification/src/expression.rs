//! The syntax tree.

use vstd::prelude::*;
use crate::token::TokenType;

verus! {

/// A node of the syntax tree.
#[derive(Debug, PartialEq, Eq)]
#[allow(inconsistent_fields)]
pub enum Expression {
    /// A 32-bit integer literal.
    Int(i32),
    /// A floating-point literal, kept as the text it was written with.
    Float(String),
    /// A boolean literal.
    Bool(bool),
    /// A character literal.
    Char(char),
    /// The name of a variable or a function.
    Identifier(String),
    /// A name taken by reference; the text keeps its leading `&`.
    Reference(String),
    /// A bare type keyword. It occurs while parsing and cannot be emitted.
    Type(String),
    /// An operator applied to one operand.
    UnaryOp { op: TokenType, expr: Box<Expression> },
    /// An operator applied to two operands.
    BinOp { left: Box<Expression>, op: TokenType, right: Box<Expression> },
    /// A typed name without a value.
    Declaration { datatype: String, identifier: String },
    /// The definition of a struct: its fields, each a name and the name of its type.
    Struct { identifier: String, variables: Vec<(String, String)> },
    /// An instance of the struct `identifier` called `name`, with a value for each field.
    StructInit { identifier: String, name: String, variables: Vec<(String, Expression)> },
    /// A new typed variable with its value.
    Assignment { datatype: String, identifier: String, value: Box<Expression> },
    /// A new value for a variable that exists.
    Reassignment { identifier: String, value: Box<Expression> },
    /// A call; `name` is a function name or `receiver.method`.
    FnCall { name: String, args: Vec<Expression> },
    /// A loop.
    While { condition: Box<Expression>, body: Vec<Expression> },
    /// A conditional without an alternative.
    If { condition: Box<Expression>, body: Vec<Expression> },
    /// A conditional with an alternative.
    IfElse { condition: Box<Expression>, body_true: Vec<Expression>, body_false: Vec<Expression> },
    /// A conditional expression.
    TernaryIfElse { condition: Box<Expression>, body_true: Box<Expression>, body_false: Box<Expression> },
    /// The definition of a function: its arguments, each a name and the name of its type.
    FnDeclaration { identifier: String, arguments: Vec<(String, String)>, return_type: String, body: Vec<Expression> },
    /// A return statement.
    Return(Box<Expression>),
    /// The inclusion of a module, given by its `/`-separated path.
    Use(String),
}

/// A node of the syntax tree as plain values: names and texts are sequences of
/// characters, lists are sequences.
#[allow(inconsistent_fields)]
pub enum ExprView {
    Int(int),
    Float(Seq<char>),
    Bool(bool),
    Char(char),
    Identifier(Seq<char>),
    Reference(Seq<char>),
    Type(Seq<char>),
    UnaryOp { op: TokenType, expr: Box<ExprView> },
    BinOp { left: Box<ExprView>, op: TokenType, right: Box<ExprView> },
    Declaration { datatype: Seq<char>, identifier: Seq<char> },
    Struct { identifier: Seq<char>, variables: Seq<(Seq<char>, Seq<char>)> },
    StructInit { identifier: Seq<char>, name: Seq<char>, variables: Seq<(Seq<char>, ExprView)> },
    Assignment { datatype: Seq<char>, identifier: Seq<char>, value: Box<ExprView> },
    Reassignment { identifier: Seq<char>, value: Box<ExprView> },
    FnCall { name: Seq<char>, args: Seq<ExprView> },
    While { condition: Box<ExprView>, body: Seq<ExprView> },
    If { condition: Box<ExprView>, body: Seq<ExprView> },
    IfElse { condition: Box<ExprView>, body_true: Seq<ExprView>, body_false: Seq<ExprView> },
    TernaryIfElse { condition: Box<ExprView>, body_true: Box<ExprView>, body_false: Box<ExprView> },
    FnDeclaration { identifier: Seq<char>, arguments: Seq<(Seq<char>, Seq<char>)>, return_type: Seq<char>, body: Seq<ExprView> },
    Return(Box<ExprView>),
    Use(Seq<char>),
}

/// The pairs of names as plain values.
pub open spec fn pairs_view(pairs: Seq<(String, String)>) -> Seq<(Seq<char>, Seq<char>)> {
    Seq::new(pairs.len(), |i: int| (pairs[i].0@, pairs[i].1@))
}

/// The expressions as plain values.
pub open spec fn exprs_view(exprs: Seq<Expression>) -> Seq<ExprView>
    decreases exprs,
{
    Seq::new(exprs.len(), |i: int| if 0 <= i < exprs.len() { exprs[i].model() } else { ExprView::Bool(false) })
}

/// The named expressions as plain values.
pub open spec fn fields_view(fields: Seq<(String, Expression)>) -> Seq<(Seq<char>, ExprView)>
    decreases fields,
{
    Seq::new(fields.len(), |i: int| if 0 <= i < fields.len() { (fields[i].0@, fields[i].1.model()) } else { (Seq::empty(), ExprView::Bool(false)) })
}

impl Expression {
    /// This node as plain values.
    pub open spec fn model(self) -> ExprView
        decreases self,
    {
        match self {
            Expression::Int(i) => ExprView::Int(i as int),
            Expression::Float(s) => ExprView::Float(s@),
            Expression::Bool(b) => ExprView::Bool(b),
            Expression::Char(c) => ExprView::Char(c),
            Expression::Identifier(s) => ExprView::Identifier(s@),
            Expression::Reference(s) => ExprView::Reference(s@),
            Expression::Type(s) => ExprView::Type(s@),
            Expression::UnaryOp { op, expr } => ExprView::UnaryOp { op, expr: Box::new(expr.model()) },
            Expression::BinOp { left, op, right } => ExprView::BinOp { left: Box::new(left.model()), op, right: Box::new(right.model()) },
            Expression::Declaration { datatype, identifier } => ExprView::Declaration { datatype: datatype@, identifier: identifier@ },
            Expression::Struct { identifier, variables } => ExprView::Struct { identifier: identifier@, variables: pairs_view(variables@) },
            Expression::StructInit { identifier, name, variables } => ExprView::StructInit { identifier: identifier@, name: name@, variables: fields_view(variables@) },
            Expression::Assignment { datatype, identifier, value } => ExprView::Assignment { datatype: datatype@, identifier: identifier@, value: Box::new(value.model()) },
            Expression::Reassignment { identifier, value } => ExprView::Reassignment { identifier: identifier@, value: Box::new(value.model()) },
            Expression::FnCall { name, args } => ExprView::FnCall { name: name@, args: exprs_view(args@) },
            Expression::While { condition, body } => ExprView::While { condition: Box::new(condition.model()), body: exprs_view(body@) },
            Expression::If { condition, body } => ExprView::If { condition: Box::new(condition.model()), body: exprs_view(body@) },
            Expression::IfElse { condition, body_true, body_false } => ExprView::IfElse { condition: Box::new(condition.model()), body_true: exprs_view(body_true@), body_false: exprs_view(body_false@) },
            Expression::TernaryIfElse { condition, body_true, body_false } => ExprView::TernaryIfElse { condition: Box::new(condition.model()), body_true: Box::new(body_true.model()), body_false: Box::new(body_false.model()) },
            Expression::FnDeclaration { identifier, arguments, return_type, body } => ExprView::FnDeclaration { identifier: identifier@, arguments: pairs_view(arguments@), return_type: return_type@, body: exprs_view(body@) },
            Expression::Return(value) => ExprView::Return(Box::new(value.model())),
            Expression::Use(path) => ExprView::Use(path@),
        }
    }
}

impl View for Expression {
    type V = ExprView;

    open spec fn view(&self) -> ExprView {
        self.model()
    }
}

/// The view of a list with one more expression is the view of the list with
/// the view of that expression.
pub proof fn lemma_exprs_view_push(exprs: Seq<Expression>, e: Expression)
    ensures
        exprs_view(exprs.push(e)) == exprs_view(exprs).push(e@),
{
}

/// The view of a list with one more pair is the view of the list with the
/// view of that pair.
pub proof fn lemma_pairs_view_push(pairs: Seq<(String, String)>, pair: (String, String))
    ensures
        pairs_view(pairs.push(pair)) == pairs_view(pairs).push((pair.0@, pair.1@)),
{
}

/// A copy of the pairs of names.
pub fn duplicate_pairs(pairs: &Vec<(String, String)>) -> (copy: Vec<(String, String)>)
    ensures
        pairs_view(copy@) == pairs_view(pairs@),
{
    let mut copy: Vec<(String, String)> = Vec::new();
    let mut i: usize = 0;
    while i < pairs.len()
        invariant
            i <= pairs.len(),
            copy.len() == i,
            forall|j: int| 0 <= j < i ==> copy@[j].0@ == pairs@[j].0@ && copy@[j].1@ == pairs@[j].1@,
        decreases pairs.len() - i,
    {
        copy.push((pairs[i].0.clone(), pairs[i].1.clone()));
        i = i + 1;
    }
    copy
}

/// A copy of the expressions.
pub fn duplicate_all(exprs: &Vec<Expression>) -> (copy: Vec<Expression>)
    ensures
        exprs_view(copy@) == exprs_view(exprs@),
    decreases exprs,
{
    let mut copy: Vec<Expression> = Vec::new();
    let mut i: usize = 0;
    while i < exprs.len()
        invariant
            i <= exprs.len(),
            copy.len() == i,
            forall|j: int| 0 <= j < i ==> copy@[j]@ == exprs@[j]@,
        decreases exprs.len() - i,
    {
        copy.push(exprs[i].duplicate());
        i = i + 1;
    }
    copy
}

/// A copy of the named expressions.
pub fn duplicate_fields(fields: &Vec<(String, Expression)>) -> (copy: Vec<(String, Expression)>)
    ensures
        fields_view(copy@) == fields_view(fields@),
    decreases fields,
{
    let mut copy: Vec<(String, Expression)> = Vec::new();
    let mut i: usize = 0;
    while i < fields.len()
        invariant
            i <= fields.len(),
            copy.len() == i,
            forall|j: int| 0 <= j < i ==> copy@[j].0@ == fields@[j].0@ && copy@[j].1@ == fields@[j].1@,
        decreases fields.len() - i,
    {
        copy.push((fields[i].0.clone(), fields[i].1.duplicate()));
        i = i + 1;
    }
    copy
}

impl Expression {
    /// A copy of this node and all below it.
    pub fn duplicate(&self) -> (copy: Self)
        ensures
            copy@ == self@,
        decreases self,
    {
        match self {
            Expression::Int(i) => Expression::Int(*i),
            Expression::Float(s) => Expression::Float(s.clone()),
            Expression::Bool(b) => Expression::Bool(*b),
            Expression::Char(c) => Expression::Char(*c),
            Expression::Identifier(s) => Expression::Identifier(s.clone()),
            Expression::Reference(s) => Expression::Reference(s.clone()),
            Expression::Type(s) => Expression::Type(s.clone()),
            Expression::UnaryOp { op, expr } => Expression::UnaryOp { op: *op, expr: Box::new(expr.duplicate()) },
            Expression::BinOp { left, op, right } => Expression::BinOp {
                left: Box::new(left.duplicate()),
                op: *op,
                right: Box::new(right.duplicate()),
            },
            Expression::Declaration { datatype, identifier } => Expression::Declaration {
                datatype: datatype.clone(),
                identifier: identifier.clone(),
            },
            Expression::Struct { identifier, variables } => Expression::Struct {
                identifier: identifier.clone(),
                variables: duplicate_pairs(variables),
            },
            Expression::StructInit { identifier, name, variables } => Expression::StructInit {
                identifier: identifier.clone(),
                name: name.clone(),
                variables: duplicate_fields(variables),
            },
            Expression::Assignment { datatype, identifier, value } => Expression::Assignment {
                datatype: datatype.clone(),
                identifier: identifier.clone(),
                value: Box::new(value.duplicate()),
            },
            Expression::Reassignment { identifier, value } => Expression::Reassignment {
                identifier: identifier.clone(),
                value: Box::new(value.duplicate()),
            },
            Expression::FnCall { name, args } => Expression::FnCall { name: name.clone(), args: duplicate_all(args) },
            Expression::While { condition, body } => Expression::While {
                condition: Box::new(condition.duplicate()),
                body: duplicate_all(body),
            },
            Expression::If { condition, body } => Expression::If {
                condition: Box::new(condition.duplicate()),
                body: duplicate_all(body),
            },
            Expression::IfElse { condition, body_true, body_false } => Expression::IfElse {
                condition: Box::new(condition.duplicate()),
                body_true: duplicate_all(body_true),
                body_false: duplicate_all(body_false),
            },
            Expression::TernaryIfElse { condition, body_true, body_false } => Expression::TernaryIfElse {
                condition: Box::new(condition.duplicate()),
                body_true: Box::new(body_true.duplicate()),
                body_false: Box::new(body_false.duplicate()),
            },
            Expression::FnDeclaration { identifier, arguments, return_type, body } => Expression::FnDeclaration {
                identifier: identifier.clone(),
                arguments: duplicate_pairs(arguments),
                return_type: return_type.clone(),
                body: duplicate_all(body),
            },
            Expression::Return(value) => Expression::Return(Box::new(value.duplicate())),
            Expression::Use(path) => Expression::Use(path.clone()),
        }
    }
}

impl Clone for Expression {
    fn clone(&self) -> (copy: Self)
        ensures
            copy@ == self@,
    {
        self.duplicate()
    }
}

} // verus!
