use boron::clock::Timestamp;
use boron::emitter::{Emitter, LibraryRoot};
use boron::program::VERSION;
use boron::error::Error;
use boron::expression::Expression;
use boron::scope::Variable;
use boron::token::TokenType;

fn text(s: &str) -> String {
    s.to_string()
}

fn name(s: &str) -> Box<Expression> {
    Box::new(Expression::Identifier(text(s)))
}

fn number(value: i32) -> Box<Expression> {
    Box::new(Expression::Int(value))
}

fn binary(left: Box<Expression>, op: TokenType, right: Box<Expression>) -> Box<Expression> {
    Box::new(Expression::BinOp { left, op, right })
}

fn assign(datatype: &str, identifier: &str, value: Box<Expression>) -> Expression {
    Expression::Assignment { datatype: text(datatype), identifier: text(identifier), value }
}

fn reassign(identifier: &str, value: Box<Expression>) -> Expression {
    Expression::Reassignment { identifier: text(identifier), value }
}

fn call(function: &str, args: Vec<Expression>) -> Expression {
    Expression::FnCall { name: text(function), args }
}

fn point() -> Expression {
    Expression::Struct { identifier: text("Point"), variables: vec![(text("x"), text("int")), (text("y"), text("flt"))] }
}

fn point_fields() -> Vec<(String, Expression)> {
    vec![(text("x"), Expression::Int(1)), (text("y"), Expression::Float(text("2.5")))]
}

fn instance(structure: &str, instance: &str, variables: Vec<(String, Expression)>) -> Expression {
    Expression::StructInit { identifier: text(structure), name: text(instance), variables }
}

fn streams(block: Vec<Expression>) -> (String, String, String, String) {
    Emitter::new().emit_block(&block, None, false).expect("the block is emitted")
}

fn code(block: Vec<Expression>) -> String {
    streams(block).3
}

fn failure(block: Vec<Expression>) -> Error {
    Emitter::new().emit_block(&block, None, false).expect_err("the block is refused")
}

#[test]
fn emits_literals() {
    assert_eq!(
        code(vec![
            Expression::Int(5),
            Expression::Int(0),
            Expression::Int(-12),
            Expression::Int(i32::MAX),
            Expression::Int(i32::MIN),
            Expression::Float(text("1.5")),
            Expression::Bool(true),
            Expression::Bool(false),
            Expression::Char('a'),
        ]),
        "5;\n0;\n-12;\n2147483647;\n-2147483648;\n1.5;\ntrue;\nfalse;\n'a';\n"
    );
}

#[test]
fn declarations() {
    assert_eq!(
        code(vec![
            Expression::Declaration { datatype: text("int"), identifier: text("x") },
            Expression::Declaration { datatype: text("Point"), identifier: text("p") },
        ]),
        "int x;\nstruct Point * p;\n"
    );
}

#[test]
fn scalar_assignments() {
    assert_eq!(
        code(vec![
            assign("int", "i", number(5)),
            assign("flt", "f", Box::new(Expression::Float(text("1.5")))),
            assign("bln", "b", Box::new(Expression::Bool(true))),
            assign("chr", "c", Box::new(Expression::Char('z'))),
            assign("int", "j", name("i")),
        ]),
        "int i = 5;\nfloat f = 1.5;\nbool b = true;\nchar c = 'z';\nint j = i;\n"
    );
}

#[test]
fn names_must_be_declared() {
    assert_eq!(failure(vec![*name("x")]), Error::UndeclaredVariable(text("x")));
    assert_eq!(code(vec![assign("int", "x", number(1)), *name("x")]), "int x = 1;\nx;\n");
    assert_eq!(failure(vec![*binary(number(1), TokenType::Plus, name("y"))]), Error::UndeclaredVariable(text("y")));
}

#[test]
fn reassignment() {
    assert_eq!(code(vec![assign("int", "x", number(1)), reassign("x", number(2))]), "int x = 1;\nx = 2;\n");
}

#[test]
fn reassignment_of_an_undeclared_name() {
    assert_eq!(failure(vec![reassign("x", number(2))]), Error::UndeclaredVariable(text("x")));
    assert_eq!(failure(vec![assign("int", "y", number(1)), reassign("x", number(2))]), Error::UndeclaredVariable(text("x")));
}

#[test]
fn print_by_kind() {
    assert_eq!(
        code(vec![
            assign("int", "i", number(5)),
            assign("flt", "f", Box::new(Expression::Float(text("1.5")))),
            assign("bln", "b", Box::new(Expression::Bool(true))),
            assign("chr", "c", Box::new(Expression::Char('z'))),
            assign("nul", "v", number(0)),
            call("print", vec![*name("i")]),
            call("print", vec![*name("f"), *name("b")]),
            call("print", vec![*name("c"), Expression::Int(1), *name("v")]),
        ]),
        "int i = 5;\nfloat f = 1.5;\nbool b = true;\nchar c = 'z';\nvoid v = 0;\n\
         printf(\"%d\\n\", i);\n\
         printf(\"%f\\n\", f);\nprintf(b ? \"true\\n\" : \"false\\n\");\n\
         printf(\"%c\\n\", c);\nprintf(\"\\n\");\n"
    );
}

#[test]
fn print_without_names() {
    assert_eq!(code(vec![call("print", vec![])]), ";\n");
    assert_eq!(code(vec![call("print", vec![Expression::Int(1)])]), ";\n");
}

#[test]
fn print_of_an_undeclared_name() {
    assert_eq!(failure(vec![call("print", vec![*name("x")])]), Error::UndeclaredVariable(text("x")));
    assert_eq!(
        failure(vec![assign("int", "i", number(5)), call("print", vec![*name("i"), *name("x")])]),
        Error::UndeclaredVariable(text("x"))
    );
}

#[test]
fn print_of_a_struct() {
    assert_eq!(
        failure(vec![point(), assign("Point", "p", Box::new(instance("Point", "q", point_fields()))), call("print", vec![*name("p")])]),
        Error::CouldNotEmit(text("p"))
    );
}

#[test]
fn operators() {
    let declared = |block: Vec<Expression>| {
        let mut all = vec![assign("int", "a", number(1)), assign("int", "b", number(2))];
        all.extend(block);
        code(all).split_off("int a = 1;\nint b = 2;\n".len())
    };
    for (kind, symbol) in [
        (TokenType::Plus, "+"),
        (TokenType::Minus, "-"),
        (TokenType::Multiply, "*"),
        (TokenType::Divide, "/"),
        (TokenType::Greater, ">"),
        (TokenType::Less, "<"),
        (TokenType::Equal, "=="),
        (TokenType::Not, "!"),
        (TokenType::GreaterEqual, ">="),
        (TokenType::LessEqual, "<="),
    ] {
        assert_eq!(declared(vec![*binary(name("a"), kind, name("b"))]), format!("(a {} b);\n", symbol));
        assert_eq!(declared(vec![Expression::UnaryOp { op: kind, expr: name("a") }]), format!("({}a);\n", symbol));
    }
    assert_eq!(
        declared(vec![*binary(binary(name("a"), TokenType::Multiply, name("b")), TokenType::Plus, number(3))]),
        "((a * b) + 3);\n"
    );
}

#[test]
fn token_kinds_that_are_no_operators() {
    assert_eq!(failure(vec![*binary(number(1), TokenType::OpenParen, number(2))]), Error::CouldNotEmit(text("operation")));
    assert_eq!(failure(vec![Expression::UnaryOp { op: TokenType::Assignment, expr: number(1) }]), Error::CouldNotEmit(text("operation")));
    assert_eq!(failure(vec![*binary(name("undeclared"), TokenType::OpenParen, number(2))]), Error::UndeclaredVariable(text("undeclared")));
    assert_eq!(failure(vec![*binary(number(1), TokenType::OpenParen, name("undeclared"))]), Error::CouldNotEmit(text("operation")));
}

#[test]
fn bare_type() {
    assert_eq!(failure(vec![Expression::Type(text("int"))]), Error::CouldNotEmit(text("int")));
}

#[test]
fn emits_struct_definition() {
    let mut emitter = Emitter::new();
    let emitted = emitter.emit_block(&vec![point()], None, false).unwrap();
    assert_eq!(emitted, (text(""), text("struct Point {\nint x;\nfloat y;\n};\n"), text(""), text("")));
    assert_eq!(
        emitter.environment().lookup_struct(0, &text("Point")),
        Ok(vec![(text("x"), Variable::Int), (text("y"), Variable::Float)])
    );
    assert_eq!(
        streams(vec![Expression::Struct { identifier: text("Empty"), variables: vec![] }]).1,
        "struct Empty {\n};\n"
    );
    assert_eq!(
        streams(vec![Expression::Struct { identifier: text("Line"), variables: vec![(text("from"), text("Point"))] }]).1,
        "struct Line {\nstruct Point * from;\n};\n"
    );
}

#[test]
fn struct_instance() {
    let mut emitter = Emitter::new();
    let emitted = emitter.emit_block(&vec![point(), instance("Point", "p", point_fields())], None, false).unwrap();
    assert_eq!(emitted.3, "struct Point p;\np.x = 1;\np.y = 2.5;\n");
    assert_eq!(emitter.environment().lookup(0, &text("p.x")), Ok(Variable::Int));
    assert_eq!(emitter.environment().lookup(0, &text("p.y")), Ok(Variable::Float));
    assert!(!emitter.environment().check(0, &text("p")));
}

#[test]
fn struct_instance_errors() {
    assert_eq!(failure(vec![point(), instance("Point", "", point_fields())]), Error::FoundBareStruct);
    assert_eq!(failure(vec![instance("Point", "p", point_fields())]), Error::UndeclaredVariable(text("Point")));
    assert_eq!(
        failure(vec![point(), instance("Point", "p", vec![(text("z"), Expression::Int(1))])]),
        Error::UndeclaredVariable(text("p.z"))
    );
    assert_eq!(
        failure(vec![point(), instance("Point", "p", vec![(text("x"), *name("undeclared"))])]),
        Error::UndeclaredVariable(text("undeclared"))
    );
}

#[test]
fn assignment_of_a_struct_instance_declares_its_fields() {
    let mut emitter = Emitter::new();
    let block = vec![
        Expression::Struct { identifier: text("Point"), variables: vec![(text("x"), text("int")), (text("y"), text("int"))] },
        assign("Point", "p", Box::new(instance("Point", "q", vec![(text("x"), Expression::Int(1)), (text("y"), Expression::Int(2))]))),
        call("print", vec![*name("p.x")]),
    ];
    let emitted = emitter.emit_block(&block, None, false).unwrap();
    assert_eq!(emitted.3, "struct Point p;\np.x = 1;\np.y = 2;\nprintf(\"%d\\n\", p.x);\n");
    assert_eq!(emitter.environment().lookup(0, &text("p")), Ok(Variable::Struct(text("Point"))));
    assert_eq!(emitter.environment().lookup(0, &text("p.x")), Ok(Variable::Int));
    assert_eq!(emitter.environment().lookup(0, &text("p.y")), Ok(Variable::Int));
    assert!(!emitter.environment().check(0, &text("q.x")));
}

#[test]
fn assignment_of_a_struct_value_declares_its_fields() {
    let mut emitter = Emitter::new();
    let block = vec![
        point(),
        assign("Point", "a", Box::new(instance("Point", "q", point_fields()))),
        assign("Point", "b", name("a")),
    ];
    let emitted = emitter.emit_block(&block, None, false).unwrap();
    assert_eq!(emitted.3, "struct Point a;\na.x = 1;\na.y = 2.5;\nstruct Point b = a;\n");
    assert_eq!(emitter.environment().lookup(0, &text("b.x")), Ok(Variable::Int));
    assert_eq!(emitter.environment().lookup(0, &text("b.y")), Ok(Variable::Float));
}

#[test]
fn assignment_of_an_unknown_struct() {
    assert_eq!(failure(vec![assign("Line", "l", number(1))]), Error::UndeclaredVariable(text("Line")));
    assert_eq!(
        failure(vec![assign("Line", "l", Box::new(instance("Line", "m", vec![])))]),
        Error::UndeclaredVariable(text("Line"))
    );
    assert_eq!(
        failure(vec![point(), assign("Point", "p", Box::new(instance("Point", "q", vec![(text("z"), Expression::Int(1))])))]),
        Error::UndeclaredVariable(text("p.z"))
    );
}

#[test]
fn reassignment_of_a_struct_instance() {
    assert_eq!(
        code(vec![
            point(),
            assign("Point", "p", Box::new(instance("Point", "q", point_fields()))),
            reassign("p", Box::new(instance("Point", "r", vec![(text("x"), Expression::Int(3)), (text("w"), Expression::Int(4))]))),
        ]),
        "struct Point p;\np.x = 1;\np.y = 2.5;\np.x = 3;\np.w = 4;\n"
    );
}

#[test]
fn names_are_passed_by_address() {
    assert_eq!(code(vec![call("f", vec![*name("v")])]), "f(&v);\n");
}

#[test]
fn calls() {
    assert_eq!(code(vec![call("f", vec![])]), "f();\n");
    assert_eq!(
        code(vec![
            assign("int", "a", number(1)),
            call("f", vec![Expression::Int(1), *name("v"), *binary(name("a"), TokenType::Plus, number(2)), *name("p.x")]),
        ]),
        "int a = 1;\nf(1, &v, (a + 2), &p.x);\n"
    );
    assert_eq!(failure(vec![call("f", vec![*binary(name("a"), TokenType::Plus, number(2))])]), Error::UndeclaredVariable(text("a")));
}

#[test]
fn method_calls() {
    assert_eq!(code(vec![call("p.reset", vec![])]), "reset(&p);\n");
    assert_eq!(code(vec![call("p.move", vec![Expression::Int(1), *name("d")])]), "move(&p, 1, &d);\n");
    assert_eq!(failure(vec![call("a.b.c", vec![])]), Error::TooManyLeadingKeywords(text("a.b.c")));
}

#[test]
fn emits_while_loop() {
    assert_eq!(
        code(vec![
            assign("int", "n", number(0)),
            Expression::While {
                condition: binary(name("n"), TokenType::Less, number(5)),
                body: vec![reassign("n", binary(name("n"), TokenType::Plus, number(1)))],
            },
        ]),
        "int n = 0;\nwhile ((n < 5)) {\nn = (n + 1);\n}\n"
    );
}

#[test]
fn blocks_have_their_own_scope() {
    let body = vec![assign("int", "k", number(1))];
    assert_eq!(
        failure(vec![Expression::While { condition: Box::new(Expression::Bool(true)), body }, *name("k")]),
        Error::UndeclaredVariable(text("k"))
    );
    assert_eq!(
        failure(vec![Expression::IfElse {
            condition: Box::new(Expression::Bool(true)),
            body_true: vec![assign("int", "k", number(1))],
            body_false: vec![*name("k")],
        }]),
        Error::UndeclaredVariable(text("k"))
    );
}

#[test]
fn blocks_are_new_scopes_under_the_present_one() {
    let mut emitter = Emitter::new();
    let block = vec![
        assign("int", "n", number(0)),
        Expression::If { condition: name("n"), body: vec![assign("int", "k", name("n"))] },
        Expression::If { condition: name("n"), body: vec![] },
    ];
    emitter.emit_block(&block, None, false).unwrap();
    let environment = emitter.environment();
    assert_eq!(environment.len(), 3);
    assert_eq!(environment.scope(0).get_parent(), None);
    assert_eq!(environment.scope(1).get_parent(), Some(0));
    assert_eq!(environment.scope(2).get_parent(), Some(0));
    assert!(environment.check(1, &text("k")));
    assert!(!environment.check(2, &text("k")));
    assert!(environment.check(2, &text("n")));
}

#[test]
fn conditionals() {
    assert_eq!(
        code(vec![Expression::If { condition: Box::new(Expression::Bool(true)), body: vec![call("f", vec![])] }]),
        "if (true) {\nf();\n}\n"
    );
    assert_eq!(
        code(vec![Expression::IfElse {
            condition: Box::new(Expression::Bool(false)),
            body_true: vec![call("f", vec![])],
            body_false: vec![call("g", vec![]), call("h", vec![])],
        }]),
        "if (false) {\nf();\n} else {\ng();\nh();\n}\n"
    );
    assert_eq!(
        code(vec![Expression::If {
            condition: Box::new(Expression::Bool(true)),
            body: vec![Expression::While { condition: Box::new(Expression::Bool(true)), body: vec![] }],
        }]),
        "if (true) {\nwhile (true) {\n}\n}\n"
    );
}

#[test]
fn emits_conditional_expression() {
    assert_eq!(
        code(vec![
            assign("bln", "c", Box::new(Expression::Bool(true))),
            assign(
                "int",
                "x",
                Box::new(Expression::TernaryIfElse { condition: name("c"), body_true: number(1), body_false: number(2) }),
            ),
        ]),
        "bool c = true;\nint x = (c ? 1 : 2);\n"
    );
}

fn function(identifier: &str, arguments: Vec<(&str, &str)>, return_type: &str, body: Vec<Expression>) -> Expression {
    Expression::FnDeclaration {
        identifier: text(identifier),
        arguments: arguments.into_iter().map(|(n, t)| (text(n), text(t))).collect(),
        return_type: text(return_type),
        body,
    }
}

#[test]
fn emits_function_definition() {
    let add = function("add", vec![("a", "int"), ("b", "int")], "int", vec![Expression::Return(binary(name("a"), TokenType::Plus, name("b")))]);
    assert_eq!(streams(vec![add]), (text(""), text(""), text("int add(int a, int b) {\nreturn (a + b);\n}\n"), text("")));
    assert_eq!(streams(vec![function("main", vec![], "nul", vec![])]).2, "void main() {\n}\n");
    assert_eq!(streams(vec![function("make", vec![], "Point", vec![])]).2, "struct Point make() {\n}\n");
}

#[test]
fn struct_arguments_are_reached_through_pointers() {
    let show = function(
        "show",
        vec![("p", "Point")],
        "nul",
        vec![call("print", vec![*name("p.x"), *name("p.y")]), reassign("p.x", name("p.x")), call("f", vec![*name("p.x")])],
    );
    assert_eq!(
        streams(vec![point(), show]).2,
        "void show(struct Point * p) {\nprintf(\"%d\\n\", p->x);\nprintf(\"%f\\n\", p->y);\np->x = p->x;\nf(&p.x);\n}\n"
    );
}

#[test]
fn arguments_belong_to_the_function() {
    let mut emitter = Emitter::new();
    let block = vec![function("f", vec![("a", "int")], "nul", vec![]), *name("a")];
    assert_eq!(emitter.emit_block(&block, None, false), Err(Error::UndeclaredVariable(text("a"))));
    let environment = emitter.environment();
    assert_eq!(environment.len(), 3);
    assert_eq!(environment.scope(1).get_parent(), Some(0));
    assert_eq!(environment.scope(2).get_parent(), Some(1));
    assert_eq!(environment.lookup(1, &text("a")), Ok(Variable::Int));
    assert_eq!(environment.lookup(2, &text("a")), Ok(Variable::Int));
}

#[test]
fn argument_of_an_unknown_struct() {
    assert_eq!(failure(vec![function("f", vec![("l", "Line")], "nul", vec![])]), Error::UndeclaredVariable(text("Line")));
}

#[test]
fn return_statement_is_always_inside_a_function() {
    assert_eq!(
        code(vec![point(), instance("Point", "p", point_fields()), Expression::Return(name("p.x"))]),
        "struct Point p;\np.x = 1;\np.y = 2.5;\nreturn p->x;\n"
    );
}

#[test]
fn emits_references() {
    assert_eq!(code(vec![Expression::Reference(text("&p.x"))]), "&p.x;\n");
    assert_eq!(
        streams(vec![function("f", vec![], "nul", vec![Expression::Reference(text("&p.x"))])]).2,
        "void f() {\n&p->x;\n}\n"
    );
}

#[test]
fn includes() {
    assert_eq!(streams(vec![Expression::Use(text("local/util"))]), (text("#include \"local/util.h\"\n"), text(""), text(""), text("")));
    assert_eq!(streams(vec![Expression::Use(text("stdx/io"))]).0, "#include \"stdx/io.h\"\n");
}

fn include_with(root: LibraryRoot, module: &str) -> Result<String, Error> {
    let mut emitter = Emitter::new();
    emitter.set_library_root(root);
    emitter.emit_block(&vec![Expression::Use(text(module))], None, false).map(|emitted| emitted.0)
}

fn found(components: &[&str]) -> LibraryRoot {
    LibraryRoot::Found(components.iter().map(|c| text(c)).collect())
}

#[test]
fn library_includes() {
    assert_eq!(include_with(found(&["/", "home", "user"]), "std/io"), Ok(text("#include \"/home/user/.boron-std/io.h\"\n")));
    assert_eq!(include_with(found(&["proj"]), "std/a/b"), Ok(text("#include \"proj/.boron-std/a/b.h\"\n")));
    assert_eq!(include_with(found(&["/", "home"]), "std"), Ok(text("#include \"/home/.boron-std.h\"\n")));
    assert_eq!(include_with(found(&["/", "home"]), "std/"), Ok(text("#include \"/home/.boron-std/.h\"\n")));
    assert_eq!(include_with(found(&["/"]), "std/io"), Ok(text("#include \"/.boron-std/io.h\"\n")));
    assert_eq!(include_with(found(&[]), "std/io"), Ok(text("#include \".boron-std/io.h\"\n")));
    assert_eq!(include_with(found(&["/", "home"]), "other/io"), Ok(text("#include \"other/io.h\"\n")));
}

#[test]
fn library_include_errors() {
    assert_eq!(include_with(LibraryRoot::Missing, "std/io"), Err(Error::CouldNotReadFile(text("std/io"))));
    assert_eq!(include_with(LibraryRoot::NoWorkingDirectory, "std/io"), Err(Error::CouldNotGetCurrentDir));
    assert_eq!(include_with(LibraryRoot::Unreadable, "std/io"), Err(Error::CouldNotEmit(text("use"))));
    assert_eq!(include_with(LibraryRoot::Missing, "local"), Ok(text("#include \"local.h\"\n")));
    let mut emitter = Emitter::new();
    assert_eq!(emitter.emit_block(&vec![Expression::Use(text("std/io"))], None, false), Err(Error::CouldNotReadFile(text("std/io"))));
}

#[test]
fn statements_are_sorted_into_streams_in_order() {
    let block = vec![
        call("first", vec![]),
        function("f", vec![], "nul", vec![]),
        Expression::Use(text("a")),
        point(),
        call("second", vec![]),
        function("g", vec![], "nul", vec![]),
        Expression::Use(text("b")),
        Expression::Struct { identifier: text("Q"), variables: vec![] },
        Expression::While { condition: Box::new(Expression::Bool(true)), body: vec![] },
    ];
    assert_eq!(
        streams(block),
        (
            text("#include \"a.h\"\n#include \"b.h\"\n"),
            text("struct Point {\nint x;\nfloat y;\n};\nstruct Q {\n};\n"),
            text("void f() {\n}\nvoid g() {\n}\n"),
            text("first();\nsecond();\nwhile (true) {\n}\n"),
        )
    );
}

#[test]
fn nested_blocks_keep_only_their_code() {
    assert_eq!(
        code(vec![Expression::If { condition: Box::new(Expression::Bool(true)), body: vec![point(), Expression::Use(text("a")), call("f", vec![])] }]),
        "if (true) {\nf();\n}\n"
    );
}

#[test]
fn emit_in_a_scope_that_exists() {
    let mut emitter = Emitter::new();
    emitter.emit_block(&vec![assign("int", "x", number(1))], None, false).unwrap();
    assert_eq!(emitter.emit(&*name("x"), 0, false), Ok(text("x")));
    assert_eq!(emitter.emit(&*name("y"), 0, false), Err(Error::UndeclaredVariable(text("y"))));
    assert_eq!(emitter.emit(&assign("int", "y", name("x")), 0, false), Ok(text("int y = x")));
    assert_eq!(emitter.emit(&*name("y"), 0, false), Ok(text("y")));
    assert_eq!(emitter.emit_printf(&vec![*name("x"), *name("y")], 0, false), Ok(text("printf(\"%d\\n\", x);\nprintf(\"%d\\n\", y)")));
}

#[test]
fn emitter_tables() {
    let emitter = Emitter::new();
    assert_eq!(emitter.match_op(TokenType::Plus), Ok(text("+")));
    assert_eq!(emitter.match_op(TokenType::Equal), Ok(text("==")));
    assert_eq!(emitter.match_op(TokenType::If), Err(Error::CouldNotEmit(text("operation"))));
    assert_eq!(emitter.match_type(text("int"), true), "int");
    assert_eq!(emitter.match_type(text("flt"), false), "float");
    assert_eq!(emitter.match_type(text("bln"), true), "bool");
    assert_eq!(emitter.match_type(text("chr"), true), "char");
    assert_eq!(emitter.match_type(text("nul"), true), "void");
    assert_eq!(emitter.match_type(text("Point"), true), "struct Point");
    assert_eq!(emitter.match_type(text("Point"), false), "struct Point *");
    assert_eq!(emitter.match_var(text("a.b.c"), true), "a->b->c");
    assert_eq!(emitter.match_var(text("a.b.c"), false), "a.b.c");
    assert_eq!(emitter.match_var(text("plain"), true), "plain");
    assert_eq!(emitter.match_module(text("local")), Ok(text("local")));
    assert_eq!(emitter.match_module(text("std/io")), Err(Error::CouldNotReadFile(text("std/io"))));
}

fn moment() -> Timestamp {
    Timestamp { year: 2024, month: 1, day: 2, hour: 3, minute: 4, second: 5 }
}

fn small_program() -> Vec<Expression> {
    vec![
        Expression::Use(text("util")),
        point(),
        function("add", vec![("a", "int"), ("b", "int")], "int", vec![Expression::Return(binary(name("a"), TokenType::Plus, name("b")))]),
        assign("int", "n", Box::new(call("add", vec![Expression::Int(1), Expression::Int(2)]))),
        call("print", vec![*name("n")]),
    ]
}

#[test]
fn executable() {
    let mut emitter = Emitter::new();
    let expected = format!(
        "// Executable autogenerated by the Boron compiler\n\
         // Version {}\n\
         // Created on 2024/01/02 at 03:04:05 local time\n\
         \n\
         #include <stdio.h>\n\
         #include <stdbool.h>\n\
         #include \"util.h\"\n\
         \n\
         \n\
         // Structs begin here\n\
         struct Point {{\nint x;\nfloat y;\n}};\n\
         \n\
         // Functions begin here\n\
         int add(int a, int b) {{\nreturn (a + b);\n}}\n\
         \n\
         int main(void) {{\n\
         int n = add(1, 2);\nprintf(\"%d\\n\", n);\n\
         \n\
         return 0;\n}}\n",
        VERSION
    );
    assert_eq!(emitter.compile_exe(small_program(), &moment()), Ok(expected));
}

#[test]
fn library() {
    let mut emitter = Emitter::new();
    let expected = format!(
        "// Library autogenerated by the Boron compiler\n\
         // Version {}\n\
         // Created on 2024/01/02 at 03:04:05 local time\n\
         \n\
         #ifndef LIB/MATH_V2\n#define LIB/MATH_V2\n\
         \n\
         #include <stdio.h>\n\
         #include <stdbool.h>\n\
         \n\
         // Additional includes begin here\n\
         #include \"util.h\"\n\
         \n\
         \n\
         // Structs begin here\n\
         struct Point {{\nint x;\nfloat y;\n}};\n\
         \n\
         // Functions begin here\n\
         int add(int a, int b) {{\nreturn (a + b);\n}}\n\
         \n\
         #endif\n",
        VERSION
    )
    .replace("LIB/MATH_V2", "LIB_MATH_V2");
    assert_eq!(emitter.compile_lib(text("lib/math_v2"), small_program(), &moment()), Ok(expected));
}

#[test]
fn emits_empty_program() {
    let mut emitter = Emitter::new();
    let expected = format!(
        "// Executable autogenerated by the Boron compiler\n// Version {}\n// Created on 0005/12/31 at 23:59:59 local time\n\n\
         #include <stdio.h>\n#include <stdbool.h>\n\n\n// Structs begin here\n\n// Functions begin here\n\nint main(void) {{\n\nreturn 0;\n}}\n",
        VERSION
    );
    let stamp = Timestamp { year: 5, month: 12, day: 31, hour: 23, minute: 59, second: 59 };
    assert_eq!(emitter.compile_exe(vec![], &stamp), Ok(expected));
}

#[test]
fn a_failed_compilation_writes_nothing() {
    let mut emitter = Emitter::new();
    assert_eq!(emitter.compile_exe(vec![reassign("x", number(1))], &moment()), Err(Error::UndeclaredVariable(text("x"))));
    assert_eq!(emitter.compile_lib(text("m"), vec![Expression::Type(text("int"))], &moment()), Err(Error::CouldNotEmit(text("int"))));
    let first = emitter.compile_exe(vec![], &moment()).unwrap();
    assert!(first.starts_with("// Executable autogenerated by the Boron compiler\n"));
    let second = emitter.compile_exe(vec![], &moment()).unwrap();
    assert_eq!(second, format!("{}{}", first, first));
}

#[test]
fn writeln_adds_a_line() {
    let mut emitter = Emitter::new();
    emitter.writeln("// note");
    emitter.writeln("");
    let written = emitter.compile_exe(vec![], &moment()).unwrap();
    assert!(written.starts_with("// note\n\n// Executable autogenerated by the Boron compiler\n"));
}

#[test]
fn banner_of_a_given_moment() {
    let stamp = Timestamp { year: 1999, month: 12, day: 31, hour: 23, minute: 59, second: 58 };
    let mut emitter = Emitter::new();
    let written = emitter.compile_exe(vec![call("f", vec![])], &stamp).unwrap();
    let lines: Vec<&str> = written.lines().collect();
    assert_eq!(lines[0], "// Executable autogenerated by the Boron compiler");
    assert_eq!(lines[1], format!("// Version {}", VERSION));
    assert_eq!(lines[2], "// Created on 1999/12/31 at 23:59:58 local time");
    assert_eq!(lines[3], "");
    assert!(written.ends_with("int main(void) {\nf();\n\nreturn 0;\n}\n"));
    let other = Timestamp { year: 2001, month: 2, day: 3, hour: 4, minute: 5, second: 6 };
    let mut emitter = Emitter::new();
    let header = emitter.compile_lib(text("m"), vec![], &other).unwrap();
    assert!(header.starts_with("// Library autogenerated by the Boron compiler\n"));
    assert!(header.contains("\n// Created on 2001/02/03 at 04:05:06 local time\n"));
    assert!(header.contains("#ifndef M\n#define M\n"));
    assert!(header.ends_with("#endif\n"));
    let again = Emitter::new().compile_exe(vec![call("f", vec![])], &other).unwrap();
    assert_eq!(again.replace("2001/02/03 at 04:05:06", "1999/12/31 at 23:59:58"), written);
}
