//! The concrete syntax tree handed over by the parser: one closed sum type
//! per syntactic category, each node with its source range.
use vstd::prelude::*;

use crate::hir::{Literal, Location};

verus! {

/// An identifier as written, with its range.
#[derive(Debug)]
pub struct SyntaxIdent {
    pub range: Location,
    pub name: String,
}

/// A possibly dotted path, as written (`Foo.bar`).
#[derive(Debug)]
pub struct SyntaxPath {
    pub range: Location,
    pub name: String,
}

#[derive(Debug)]
pub enum SyntaxPattern {
    Literal(Literal, Location),
    Wildcard(Location),
    Rest(Location),
    Binding(SyntaxIdent),
    Constructor(SyntaxPath, Vec<SyntaxPattern>, Location),
}

#[derive(Debug)]
pub enum SyntaxExpr {
    Primary(Box<SyntaxPrimary>),
    Ann(Box<SyntaxAnn>),
    App(Box<SyntaxApp>),
    TypeApp(Box<SyntaxTypeApp>),
    Binary(Box<SyntaxBinary>),
    Lam(Box<SyntaxLam>),
    Match(Box<SyntaxMatch>),
    Pi(Box<SyntaxPi>),
    Sigma(Box<SyntaxSigma>),
}

#[derive(Debug)]
pub struct SyntaxPrimary {
    pub range: Location,
    pub child: PrimaryChild,
}

#[derive(Debug)]
pub enum PrimaryChild {
    Array(SyntaxArray),
    If(Box<SyntaxIf>),
    Literal(Literal),
    Match(Box<SyntaxMatch>),
    Path(SyntaxPath),
    Return(SyntaxReturn),
    Tuple(SyntaxTuple),
    /// A free variable `^name`; the identifier holds the name after the
    /// sigil and the range covers both.
    FreeVariable(SyntaxIdent),
    Universe,
}

#[derive(Debug)]
pub struct SyntaxArray {
    pub range: Location,
    pub items: Vec<SyntaxExpr>,
}

#[derive(Debug)]
pub struct SyntaxTuple {
    pub range: Location,
    pub items: Vec<SyntaxExpr>,
}

#[derive(Debug)]
pub struct SyntaxReturn {
    pub range: Location,
    pub value: Option<Box<SyntaxExpr>>,
}

#[derive(Debug)]
pub struct SyntaxAnn {
    pub range: Location,
    pub value: SyntaxExpr,
    pub against: SyntaxExpr,
}

#[derive(Debug)]
pub enum BinaryRhs {
    Binary(Box<SyntaxBinary>),
    Primary(Box<SyntaxPrimary>),
}

#[derive(Debug)]
pub struct SyntaxBinary {
    pub range: Location,
    pub lhs: SyntaxExpr,
    pub op: SyntaxIdent,
    pub rhs: BinaryRhs,
}

#[derive(Debug)]
pub struct SyntaxLam {
    pub range: Location,
    pub parameters: Vec<SyntaxPattern>,
    pub value: SyntaxExpr,
}

/// An application; `blocks` are the block arguments that trail it.
#[derive(Debug)]
pub struct SyntaxApp {
    pub range: Location,
    pub callee: SyntaxPrimary,
    pub arguments: Vec<SyntaxPrimary>,
    pub blocks: Vec<SyntaxBlock>,
}

#[derive(Debug)]
pub struct SyntaxTypeApp {
    pub range: Location,
    pub callee: SyntaxPrimary,
    pub arguments: Vec<SyntaxPrimary>,
}

#[derive(Debug)]
pub struct SyntaxParameter {
    pub range: Location,
    pub pattern: SyntaxPattern,
    pub type_rep: SyntaxExpr,
}

#[derive(Debug)]
pub enum PiParameters {
    /// `(x : A) -> B`
    Explicit(Vec<SyntaxParameter>),
    /// `forall (x : A) -> B`
    Forall(Vec<SyntaxParameter>),
    /// `A -> B`: a parameter given only by its type.
    Bare(SyntaxExpr),
}

#[derive(Debug)]
pub struct SyntaxPi {
    pub range: Location,
    pub parameter: PiParameters,
    pub value: SyntaxExpr,
}

#[derive(Debug)]
pub enum SigmaParameter {
    Parameter(SyntaxParameter),
    /// A parameter given only by a pattern.
    Pattern(SyntaxPattern),
}

#[derive(Debug)]
pub struct SyntaxSigma {
    pub range: Location,
    pub parameters: Vec<SigmaParameter>,
    pub value: SyntaxExpr,
}

#[derive(Debug)]
pub enum ArmBody {
    Block(SyntaxBlock),
    Expr(SyntaxExpr),
}

#[derive(Debug)]
pub struct SyntaxArm {
    pub range: Location,
    pub pattern: SyntaxPattern,
    pub body: ArmBody,
}

#[derive(Debug)]
pub struct SyntaxMatch {
    pub range: Location,
    pub scrutinee: SyntaxExpr,
    pub arms: Vec<SyntaxArm>,
}

#[derive(Debug)]
pub struct SyntaxIf {
    pub range: Location,
    pub condition: SyntaxExpr,
    pub consequence: ArmBody,
    pub otherwise: ArmBody,
}

#[derive(Debug)]
pub enum SyntaxStmt {
    Let(SyntaxPattern, SyntaxExpr),
    Ask(SyntaxPattern, SyntaxExpr),
    Expr(SyntaxExpr),
}

#[derive(Debug)]
pub struct SyntaxBlock {
    pub range: Location,
    pub statements: Vec<SyntaxStmt>,
}

} // verus!
