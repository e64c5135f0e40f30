//! The AST node model: spans, span-wrapped nodes, literals, expressions,
//! statements and declarations.

use vstd::prelude::*;

verus! {

use crate::operations::{Assignment, BinaryExpr, UnaryExpr};

/// A half-open byte range into the original source buffer.
#[derive(Debug, PartialEq, Eq, Structural, Clone, Copy)]
pub struct Span {
    /// Byte offset of the first byte covered.
    pub start: usize,
    /// Byte offset one past the last byte covered.
    pub end: usize,
}

/// A syntax value paired with its originating span.
#[derive(Debug, PartialEq)]
pub struct Node<T> {
    /// The syntax value itself.
    pub value: T,
    /// Where in the source the value came from.
    pub span: Span,
}

impl<T> Node<T> {
    /// Wrap a syntax value together with its span; the span is set here,
    /// at construction, and nothing later rewrites it.
    pub fn new(value: T, span: Span) -> (r: Node<T>)
        ensures
            r.value == value,
            r.span == span,
    {
        Node { value, span }
    }
}

/// An identifier as it was spelled in the source.
pub type Ident = String;

/// Whether a binding may be reassigned.
#[derive(Debug, PartialEq, Eq, Structural, Clone, Copy)]
pub enum Mutability {
    /// The binding may be reassigned.
    Mutable,
    /// The binding is fixed once declared.
    Immutable,
}

/// A literal value appearing in an expression.
#[derive(Debug, PartialEq)]
pub enum Literal {
    /// A boolean literal.
    Bool(bool),
    /// An integer literal.
    Int(i64),
    /// A floating point literal, kept as it was spelled in the source.
    Float(String),
    /// A string literal.
    String(String),
    /// A character literal.
    Char(char),
    /// An array literal.
    Array(Vec<Node<Expr>>),
}

/// The closed set of expression forms.
#[derive(Debug, PartialEq)]
pub enum Expr {
    /// A literal expression.
    Literal(Node<Literal>),
    /// An identifier expression.
    Ident(Node<Ident>),
    /// A binary operation expression.
    BinaryExpr(Node<BinaryExpr>),
    /// A unary operation expression.
    UnaryExpr(Node<UnaryExpr>),
    /// A block of statements.
    Block(Node<Block>),
}

/// A braced sequence of statements.
#[derive(Debug, PartialEq)]
pub struct Block {
    /// The statements of the block, in source order.
    pub stmts: Vec<Node<Stmt>>,
}

/// The closed set of statement forms.
#[derive(Debug, PartialEq)]
pub enum Stmt {
    /// A variable declaration.
    Declaration(Node<Declaration>),
    /// A function declaration.
    FuncDecl(Node<FuncDecl>),
    /// An external function declaration.
    ExternFunc(Node<ExternFunc>),
    /// A variable assignment.
    Assignment(Node<Assignment>),
    /// A bare expression statement.
    Expr(Node<Expr>),
}

/// A variable declaration.
#[derive(Debug, PartialEq)]
pub struct Declaration {
    /// The name being declared.
    pub ident: Node<Ident>,
    /// Whether the binding may be reassigned.
    pub mutability: Mutability,
    /// An explicit type annotation, by type name, when one was written.
    pub explicit_type: Option<Node<Ident>>,
    /// The declared value.
    pub value: Node<Expr>,
}

/// One parenthesised argument of a function declaration.
#[derive(Debug, PartialEq)]
pub struct ParenArgument {
    /// The argument's name.
    pub ident: Node<Ident>,
    /// The argument's declared type, by type name.
    pub type_expr: Node<Ident>,
}

impl Clone for ParenArgument {
    /// A copy of the argument, equal to the original.
    fn clone(&self) -> (r: Self)
        ensures
            r == *self,
    {
        ParenArgument {
            ident: Node { value: self.ident.value.clone(), span: self.ident.span },
            type_expr: Node { value: self.type_expr.value.clone(), span: self.type_expr.span },
        }
    }
}

/// A function declaration.
#[derive(Debug, PartialEq)]
pub struct FuncDecl {
    /// The function's name.
    pub ident: Node<Ident>,
    /// The function's arguments, in order.
    pub args: Vec<Node<ParenArgument>>,
    /// The declared return type, by type name, when one was written.
    pub ret_type_expr: Option<Node<Ident>>,
    /// The function's body.
    pub body: Node<Block>,
}

/// An external function declaration: a signature without a body.
#[derive(Debug, PartialEq)]
pub struct ExternFunc {
    /// The function's name.
    pub ident: Node<Ident>,
    /// The function's arguments, in order.
    pub args: Vec<Node<ParenArgument>>,
    /// The declared return type, by type name, when one was written.
    pub ret_type_expr: Option<Node<Ident>>,
}

} // verus!
