//! Scope walker behaviour: the symbol stack, declaration handling,
//! shadowing, and expression typing.

use styxc::ast::{
    Block, Declaration, Expr, ExternFunc, FuncDecl, Ident, Literal, Mutability, Node,
    ParenArgument, Span, Stmt,
};
use styxc::types::Type;
use styxc::walker::{Function, Linkage, Stack, Walker};

fn span() -> Span {
    Span { start: 0, end: 0 }
}

fn ident(name: &str) -> Node<Ident> {
    Node::new(name.to_string(), span())
}

fn int_literal(value: i64) -> Node<Expr> {
    Node::new(Expr::Literal(Node::new(Literal::Int(value), span())), span())
}

fn declaration(name: &str, explicit: Option<&str>, value: Node<Expr>) -> Declaration {
    Declaration {
        ident: ident(name),
        mutability: Mutability::Immutable,
        explicit_type: explicit.map(ident),
        value,
    }
}

fn func_decl(name: &str, arg: (&str, &str), ret: Option<&str>) -> FuncDecl {
    FuncDecl {
        ident: ident(name),
        args: vec![Node::new(
            ParenArgument {
                ident: ident(arg.0),
                type_expr: ident(arg.1),
            },
            span(),
        )],
        ret_type_expr: ret.map(ident),
        body: Node::new(Block { stmts: vec![] }, span()),
    }
}

#[test]
fn stack_push_pop_get() {
    let mut stack: Stack<u32> = Stack::new();
    assert_eq!(stack.size(), 0);
    assert_eq!(stack.pop(), None);
    stack.push(10);
    stack.push(20);
    assert_eq!(stack.size(), 2);
    assert_eq!(stack.get(0), Some(&10));
    assert_eq!(stack.get(1), Some(&20));
    assert_eq!(stack.get(2), None);
    assert_eq!(*stack.get_unchecked(1), 20);
    assert_eq!(stack.pop(), Some(20));
    assert_eq!(stack.size(), 1);
}

#[test]
fn stack_find_searches_most_recent_first() {
    let mut stack: Stack<u32> = Stack::new();
    stack.push(3);
    stack.push(8);
    stack.push(5);
    assert_eq!(stack.find(|v: &u32| *v % 2 == 1), Some(&5));
    assert_eq!(stack.find(|v: &u32| *v % 2 == 0), Some(&8));
    assert_eq!(stack.find(|v: &u32| *v > 100), None);
}

#[test]
fn stack_find_mut_updates_in_place() {
    let mut stack: Stack<u32> = Stack::new();
    stack.push(3);
    stack.push(8);
    if let Some(item) = stack.find_mut(|v: &u32| *v == 3) {
        *item = 4;
    }
    assert_eq!(stack.get(0), Some(&4));
    assert_eq!(stack.get(1), Some(&8));
    assert!(stack.find_mut(|v: &u32| *v == 3).is_none());
}

#[test]
fn scope_shadowing() {
    let mut walker = Walker::new();
    walker.declare_variable(&declaration("x", Some("int"), int_literal(1)));
    walker.declare_variable(&declaration("x", Some("bool"), int_literal(2)));
    // The most recently pushed record of the name wins.
    let found = walker.lookup_variable("x").expect("x must resolve");
    assert_eq!(found.name, "x");
    assert_eq!(found.ty, Type::Bool);
}

#[test]
fn lookup_misses_give_nothing() {
    let mut walker = Walker::new();
    assert!(walker.lookup_variable("ghost_name").is_none());
    assert!(walker.lookup_function("ghost_name").is_none());
    walker.declare_variable(&declaration("x", Some("int"), int_literal(1)));
    assert!(walker.lookup_variable("y").is_none());
}

#[test]
fn variable_types_come_from_annotation_or_value() {
    let mut walker = Walker::new();
    walker.declare_variable(&declaration("a", Some("float"), int_literal(1)));
    walker.declare_variable(&declaration("b", None, int_literal(2)));
    assert_eq!(walker.lookup_variable("a").unwrap().ty, Type::Float);
    assert_eq!(walker.lookup_variable("b").unwrap().ty, Type::Int);
}

#[test]
fn lookup_variable_mut_reaches_the_record() {
    let mut walker = Walker::new();
    walker.declare_variable(&declaration("x", Some("int"), int_literal(1)));
    if let Some(var) = walker.lookup_variable_mut("x") {
        var.ty = Type::Bool;
    }
    assert_eq!(walker.lookup_variable("x").unwrap().ty, Type::Bool);
}

#[test]
fn function_declarations_register() {
    let mut walker = Walker::new();
    walker.declare_function(&func_decl("add_one", ("n", "int"), Some("int")));
    let f = walker.lookup_function("add_one").expect("must resolve");
    assert_eq!(f.name, "add_one");
    assert_eq!(f.linkage, Linkage::Local);
    assert_eq!(f.ret_type, Type::Int);
    assert_eq!(f.args.len(), 1);
    assert_eq!(f.args[0].ident.value, "n");
}

#[test]
fn external_functions_register_with_external_linkage() {
    let mut walker = Walker::new();
    let ext = ExternFunc {
        ident: ident("putc"),
        args: vec![Node::new(
            ParenArgument {
                ident: ident("c"),
                type_expr: ident("char"),
            },
            span(),
        )],
        ret_type_expr: None,
    };
    walker.declare_external_function(&ext);
    let f = walker.lookup_function("putc").expect("must resolve");
    assert_eq!(f.linkage, Linkage::External);
    // A missing return annotation means the unit type.
    assert_eq!(f.ret_type, Type::Unit);
}

#[test]
fn entering_a_block_hoists_functions() {
    let mut walker = Walker::new();
    let block = Block {
        stmts: vec![
            Node::new(Stmt::Expr(int_literal(1)), span()),
            Node::new(
                Stmt::FuncDecl(Node::new(func_decl("late", ("n", "int"), Some("bool")), span())),
                span(),
            ),
        ],
    };
    walker.enter_block(&block);
    // The function is visible although it is declared after the first
    // statement of the block.
    let f = walker.lookup_function("late").expect("hoisted");
    assert_eq!(f.ret_type, Type::Bool);
}

#[test]
fn next_stmt_declares_variables_in_order() {
    let mut walker = Walker::new();
    let decl = Node::new(declaration("x", Some("int"), int_literal(1)), span());
    walker.next_stmt(&Stmt::Declaration(decl));
    assert!(walker.lookup_variable("x").is_some());
    walker.next_stmt(&Stmt::Expr(int_literal(5)));
    assert!(walker.lookup_variable("x").is_some());
}

#[test]
fn expression_types() {
    let mut walker = Walker::new();
    walker.declare_variable(&declaration("x", Some("int"), int_literal(1)));

    // Literals type by their kind.
    assert_eq!(walker.get_expr_type(&Expr::Literal(Node::new(Literal::Bool(true), span()))), Type::Bool);
    assert_eq!(
        walker.get_expr_type(&Expr::Literal(Node::new(Literal::Float("1.5".to_string()), span()))),
        Type::Float
    );
    assert_eq!(
        walker.get_expr_type(&Expr::Literal(Node::new(Literal::Char('c'), span()))),
        Type::Char
    );
    assert_eq!(
        walker.get_expr_type(&Expr::Literal(Node::new(Literal::Array(vec![]), span()))),
        Type::Array(Box::new(Type::Infer))
    );

    // Identifiers type by lookup; unresolved names degrade to the
    // inference sentinel.
    assert_eq!(
        walker.get_expr_type(&Expr::Ident(ident("x"))),
        Type::Int
    );
    assert_eq!(
        walker.get_expr_type(&Expr::Ident(ident("missing"))),
        Type::Infer
    );

    // Blocks type as unit.
    assert_eq!(
        walker.get_expr_type(&Expr::Block(Node::new(Block { stmts: vec![] }, span()))),
        Type::Unit
    );
}

#[test]
fn binary_expression_types_intersect() {
    let mut walker = Walker::new();
    walker.declare_variable(&declaration("x", Some("int"), int_literal(1)));
    let bin = Expr::BinaryExpr(Node::new(
        styxc::operations::BinaryExpr {
            lhs: Box::new(Node::new(Expr::Ident(ident("x")), span())),
            rhs: Box::new(Node::new(Expr::Ident(ident("y")), span())),
            kind: styxc::operations::BinaryOp::Plus,
        },
        span(),
    ));
    // Both operand types resolve from the left-hand child, so the
    // intersection is the left type itself.
    assert_eq!(walker.get_expr_type(&bin), Type::Int);
}

#[test]
fn current_function_starts_empty() {
    let walker = Walker::new();
    assert!(walker.current_function().is_none());
}

#[test]
fn function_record_from_declaration() {
    let decl = func_decl("mul_two", ("n", "int"), Some("Point"));
    let f = Function::from_declaration(&decl, Linkage::Module);
    assert_eq!(f.name, "mul_two");
    assert_eq!(f.linkage, Linkage::Module);
    assert_eq!(f.ret_type, Type::Reference("Point".to_string()));
    assert_eq!(f.args.len(), 1);
    assert_eq!(f.args[0].type_expr.value, "int");
}
