//! Abstract syntax of the analyzed language: a program is a sequence of typed
//! function declarations whose bodies are built from statements and
//! expressions. Every node carries the source position of the construct it
//! came from, so that diagnostics can point at it.

use vstd::prelude::*;

verus! {

/// A source position (line and column) attached to every syntax node.
#[derive(Clone, Copy, PartialEq, Eq, Structural, Debug)]
pub struct Pos {
    pub line: u32,
    pub col: u32,
}

/// The closed set of types the language knows.
///
/// `Unit` is the type of statements and of blocks without a tail expression.
/// `Unknown` stands for a value whose type the language cannot express (such
/// as a string literal); it matches no concrete type. `Error` is the recovery
/// sentinel the checker substitutes after reporting a type error on an
/// expression: it is compatible with everything, so one mistake does not
/// cascade into spurious secondary diagnostics.
#[derive(Clone, Copy, PartialEq, Eq, Structural, Debug)]
pub enum Ty {
    Integer,
    Boolean,
    Unit,
    Unknown,
    Error,
}

/// Binary operators. The first five are arithmetic and require integer
/// operands; the rest are comparisons, which accept any pair of matching
/// operand types and yield a boolean.
#[derive(Clone, Copy, PartialEq, Eq, Structural, Debug)]
pub enum BinOp {
    Add,
    Sub,
    Mul,
    Div,
    Mod,
    Lt,
    Le,
    Gt,
    Ge,
    EqEq,
    NotEq,
}

/// Expressions.
pub enum Expr {
    /// An integer literal, such as `42`.
    IntLit { value: i64, pos: Pos },
    /// A boolean literal, `true` or `false`.
    BoolLit { value: bool, pos: Pos },
    /// A string literal. The language has no string type, so such a literal
    /// types as `Unknown` and can only ever appear as a type mismatch.
    StrLit { pos: Pos },
    /// A use of a variable.
    Ident { name: String, pos: Pos },
    /// A binary operation, `lhs op rhs`.
    Binary { op: BinOp, lhs: Box<Expr>, rhs: Box<Expr>, pos: Pos },
    /// A call of a named function.
    Call { callee: String, args: Vec<Expr>, pos: Pos },
    /// A brace-delimited block used as an expression; its value is the value
    /// of its tail expression, or unit if it has none.
    BlockExpr { block: Box<Block>, pos: Pos },
    /// An `if` used in value position. Both branches are required there, and
    /// their values must have matching types.
    IfExpr {
        cond: Box<Expr>,
        then_block: Box<Block>,
        else_block: Option<Box<Block>>,
        pos: Pos,
    },
}

/// A brace-delimited block: a sequence of statements, optionally followed by
/// a tail expression (one not terminated by `;`) that gives the block its
/// value.
pub struct Block {
    pub stmts: Vec<Stmt>,
    pub tail: Option<Expr>,
    pub pos: Pos,
}

/// Statements.
pub enum Stmt {
    /// `let [mut] name [: T] [= init];`
    Let {
        mutable: bool,
        name: String,
        annotation: Option<Ty>,
        init: Option<Expr>,
        pos: Pos,
    },
    /// `name = value;`
    Assign { name: String, value: Expr, pos: Pos },
    /// An expression evaluated for effect, `expr;`.
    ExprStmt { expr: Expr, pos: Pos },
    /// `if cond { ... } [else { ... }]` in statement position.
    If { cond: Expr, then_block: Block, else_block: Option<Block>, pos: Pos },
    /// `while cond { ... }`
    While { cond: Expr, body: Block, pos: Pos },
    /// `for [mut] var in start..end { ... }`; the loop variable is an integer
    /// binding scoped to the body.
    For {
        mutable: bool,
        var: String,
        start: Expr,
        end: Expr,
        body: Block,
        pos: Pos,
    },
    /// `loop { ... }`
    Loop { body: Block, pos: Pos },
    /// `break;`, valid only lexically inside a loop body.
    Break { pos: Pos },
    /// `continue;`, valid only lexically inside a loop body.
    Continue { pos: Pos },
    /// `return;` or `return value;`
    Return { value: Option<Expr>, pos: Pos },
    /// A block in statement position.
    BlockStmt { block: Block, pos: Pos },
}

/// One declared parameter of a function.
pub struct Param {
    pub mutable: bool,
    pub name: String,
    pub ty: Ty,
    pub pos: Pos,
}

/// A function declaration: `fn name(params) -> return_type { body }`. A
/// function without an arrow is declared with return type `Unit`.
pub struct FunctionDecl {
    pub name: String,
    pub params: Vec<Param>,
    pub return_type: Ty,
    pub body: Block,
    pub pos: Pos,
}

/// A whole program: its top-level function declarations, in source order.
pub struct Program {
    pub functions: Vec<FunctionDecl>,
}

/// The source position an expression carries.
pub open spec fn expr_pos(e: Expr) -> Pos {
    match e {
        Expr::IntLit { pos, .. } => pos,
        Expr::BoolLit { pos, .. } => pos,
        Expr::StrLit { pos } => pos,
        Expr::Ident { pos, .. } => pos,
        Expr::Binary { pos, .. } => pos,
        Expr::Call { pos, .. } => pos,
        Expr::BlockExpr { pos, .. } => pos,
        Expr::IfExpr { pos, .. } => pos,
    }
}

/// The source position a statement carries.
pub open spec fn stmt_pos(s: Stmt) -> Pos {
    match s {
        Stmt::Let { pos, .. } => pos,
        Stmt::Assign { pos, .. } => pos,
        Stmt::ExprStmt { pos, .. } => pos,
        Stmt::If { pos, .. } => pos,
        Stmt::While { pos, .. } => pos,
        Stmt::For { pos, .. } => pos,
        Stmt::Loop { pos, .. } => pos,
        Stmt::Break { pos } => pos,
        Stmt::Continue { pos } => pos,
        Stmt::Return { pos, .. } => pos,
        Stmt::BlockStmt { pos, .. } => pos,
    }
}

/// Whether an operator is arithmetic (otherwise it is a comparison).
pub open spec fn is_arith(op: BinOp) -> bool {
    match op {
        BinOp::Add | BinOp::Sub | BinOp::Mul | BinOp::Div | BinOp::Mod => true,
        _ => false,
    }
}

/// Executable twin of `expr_pos`.
pub fn pos_of_expr(e: &Expr) -> (p: Pos)
    ensures
        p == expr_pos(*e),
{
    match e {
        Expr::IntLit { pos, .. } => *pos,
        Expr::BoolLit { pos, .. } => *pos,
        Expr::StrLit { pos } => *pos,
        Expr::Ident { pos, .. } => *pos,
        Expr::Binary { pos, .. } => *pos,
        Expr::Call { pos, .. } => *pos,
        Expr::BlockExpr { pos, .. } => *pos,
        Expr::IfExpr { pos, .. } => *pos,
    }
}

/// Executable twin of `stmt_pos`.
pub fn pos_of_stmt(s: &Stmt) -> (p: Pos)
    ensures
        p == stmt_pos(*s),
{
    match s {
        Stmt::Let { pos, .. } => *pos,
        Stmt::Assign { pos, .. } => *pos,
        Stmt::ExprStmt { pos, .. } => *pos,
        Stmt::If { pos, .. } => *pos,
        Stmt::While { pos, .. } => *pos,
        Stmt::For { pos, .. } => *pos,
        Stmt::Loop { pos, .. } => *pos,
        Stmt::Break { pos } => *pos,
        Stmt::Continue { pos } => *pos,
        Stmt::Return { pos, .. } => *pos,
        Stmt::BlockStmt { pos, .. } => *pos,
    }
}

/// Executable twin of `is_arith`.
pub fn op_is_arith(op: BinOp) -> (r: bool)
    ensures
        r == is_arith(op),
{
    match op {
        BinOp::Add | BinOp::Sub | BinOp::Mul | BinOp::Div | BinOp::Mod => true,
        _ => false,
    }
}

} // verus!
