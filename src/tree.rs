use vstd::prelude::*;
use crate::token::Span;

verus! {

/// A sequence of owned children, each child boxed and owned by its list.
#[derive(Debug, PartialEq, Eq)]
pub enum Nodes<T> {
    Nil,
    Cons(Box<T>, Box<Nodes<T>>),
}

#[derive(Debug, PartialEq, Eq)]
pub struct ClassType {
    pub name: Span,
    pub type_args_opt: Option<Nodes<Type>>,
}

#[derive(Debug, PartialEq, Eq)]
pub enum Type {
    Primitive(Span),
    Class(ClassType),
    Array(Box<Type>),
}

/// A lambda parameter: a name, with its declared type where one is written.
#[derive(Debug, PartialEq, Eq)]
pub struct Param {
    pub tpe_opt: Option<Type>,
    pub name: Span,
}

#[derive(Debug, PartialEq, Eq)]
pub enum Expr {
    Int(Span),
    Str(Span),
    Char(Span),
    Boolean(Span),
    Null(Span),
    This(Span),
    Super(Span),
    Name(Span),
    ArrayAccess { expr: Box<Expr>, index: Box<Expr> },
    BinaryOperation { left: Box<Expr>, operator: Span, right: Box<Expr> },
    InstanceOf { expr: Box<Expr>, operator: Span, tpe: Type },
    Assignment { assigned: Box<Expr>, operator: Span, expr: Box<Expr> },
    UnaryOperation { expr: Box<Expr>, operator: Span, is_post: bool },
    MethodCall { name: Span, args: Nodes<Expr> },
    /// `this(args)` or `super(args)`; `name` is the keyword.
    ConstructorCall { name: Span, args: Nodes<Expr> },
    /// `{ item, ... }`
    ArrayInitializer { items: Nodes<Expr> },
    /// `new <type args>? C(args)`: the type arguments are those written
    /// right after `new`.
    NewObject { type_args_opt: Option<Nodes<Type>>, tpe: ClassType, args: Nodes<Expr> },
    /// `new T[s1][s2]...[]...` with an optional initializer: `sizes` are the
    /// dimensions written with a size; each `[]` written after them wraps
    /// `tpe` in an array type; `initializer_opt` holds an `ArrayInitializer`.
    NewArray { tpe: Type, sizes: Nodes<Expr>, initializer_opt: Option<Box<Expr>> },
    Lambda { id: u64, params: Nodes<Param>, body: Box<Expr> },
}

#[derive(Debug, PartialEq, Eq)]
pub struct Block {
    pub stmts: Nodes<Statement>,
}

/// One name declared by a variable declaration, with its initializer.
#[derive(Debug, PartialEq, Eq)]
pub struct VariableDeclarator {
    pub name: Span,
    pub expr_opt: Option<Expr>,
}

/// The variable of a foreach loop: a type and a name, no initializer.
#[derive(Debug, PartialEq, Eq)]
pub struct StandaloneVariableDeclarator {
    pub tpe: Type,
    pub name: Span,
}

#[derive(Debug, PartialEq, Eq)]
pub struct Class {
    pub modifiers: Nodes<Span>,
    pub name: Span,
    pub type_params: Nodes<Span>,
    pub extend_opt: Option<ClassType>,
    pub implements: Nodes<ClassType>,
    pub body: Nodes<Statement>,
}

#[derive(Debug, PartialEq, Eq)]
pub enum Statement {
    Expr(Expr),
    VariableDeclarators { tpe: Type, declarators: Nodes<VariableDeclarator> },
    Block(Block),
    Return(Option<Expr>),
    ForLoop { inits: Nodes<Statement>, cond_opt: Option<Expr>, updates: Nodes<Statement>, block: Block },
    Foreach { declarator: StandaloneVariableDeclarator, expr: Expr, block: Block },
    Class(Class),
}

} // verus!
