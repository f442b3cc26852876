//! The statement tree that a parser hands to the interpreter.

use vstd::prelude::*;
use crate::data::ForgetMemory;
use crate::value::{ArithOp, Literal, PathSegment};

verus! {

/// Binary and unary operators of conditions and expressions.
#[derive(Clone, Copy, Debug, PartialEq, Eq, Structural)]
pub enum Infix {
    Equal,
    NotEqual,
    GreaterThan,
    LessThan,
    GreaterThanEqual,
    LessThanEqual,
    And,
    Or,
    Not,
    Arith(ArithOp),
}

#[derive(Debug)]
pub enum Expr {
    LitExpr(Literal),
    /// A variable, looked up in the step variables, then in the memory.
    IdentExpr(String),
    /// A field of the inbound event (`event.text`).
    EventPath(String),
    InfixExpr(Infix, Box<Expr>, Box<Expr>),
    /// A method called without arguments (`x.type_of()`).
    MethodExpr(Box<Expr>, String),
    /// A field of an object (`user.name`).
    PathExpr(Box<Expr>, String),
    /// An item of an array (`cities[0]`).
    IndexExpr(Box<Expr>, usize),
}

/// A goto target: a name as written, or the value of a variable.
#[derive(Clone, Debug)]
pub enum GotoValue {
    Name(String),
    Var(String),
}

#[derive(Debug)]
pub enum GotoType {
    Step(GotoValue),
    Flow(GotoValue),
    StepFlow { step: Option<GotoValue>, flow: Option<GotoValue> },
}

#[derive(Debug)]
pub enum DoType {
    /// Writes a new value into a variable, or into the field or item that
    /// the path names inside it (`do user.cities[0] = "Paris"`).
    Update(String, Vec<PathSegment>, Expr),
    Exec(Expr),
}

/// The side-effecting statements.
#[derive(Debug)]
pub enum ObjectType {
    Say(Expr),
    Debug(Expr),
    Use(Expr),
    Do(DoType),
    Goto(GotoType),
    Remember(String, Expr),
    Forget(ForgetMemory),
    Hold,
}

/// Pre-order position of a statement in its step, and the number of
/// statements nested in it.
#[derive(Clone, Copy, Debug, PartialEq, Eq, Structural)]
pub struct InstructionInfo {
    pub index: usize,
    pub total: usize,
}

#[derive(Debug)]
pub enum Statement {
    Action(ObjectType),
    If(IfStatement),
    ForEach(ForEachStatement),
}

/// `foreach (ident, index) in expr { block }`: runs the block once per item
/// of an array, the item bound to `ident` and its position to `index`.
#[derive(Debug)]
pub struct ForEachStatement {
    pub ident: String,
    pub index: Option<String>,
    pub expr: Expr,
    pub block: Block,
}

#[derive(Debug)]
pub struct Block {
    pub commands: Vec<(Statement, InstructionInfo)>,
}

#[derive(Debug)]
pub enum IfStatement {
    IfStmt {
        cond: Expr,
        consequence: Block,
        then_branch: Option<Box<IfStatement>>,
        /// Index of the last statement nested in `consequence`.
        last_action_index: usize,
    },
    ElseStmt(Block),
}

/// A named block of statements.
#[derive(Debug)]
pub struct Step {
    pub name: String,
    pub block: Block,
}

/// A named collection of steps.
#[derive(Debug)]
pub struct Flow {
    pub name: String,
    pub steps: Vec<Step>,
}

} // verus!
