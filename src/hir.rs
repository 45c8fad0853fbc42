//! The high-level intermediate representation: name-resolved expressions,
//! types, patterns and statements, each carrying its source location.
use vstd::prelude::*;

use crate::scope::ScopeFrame;

verus! {

/// A span in the source text, or the call site for synthesized nodes.
#[derive(Clone, Copy, Debug, PartialEq, Eq, Structural)]
pub enum Location {
    CallSite,
    Span { start: u64, end: u64 },
}

/// What kind of entity a path is resolved against.
#[derive(Clone, Copy, Debug, PartialEq, Eq, Structural)]
pub enum DefinitionKind {
    Function,
    Type,
    Constructor,
    Trait,
}

/// A handle for a named entity. Two handles denote the same entity exactly
/// when their ids are equal; an unresolved placeholder has `resolved == false`.
#[derive(Clone, Copy, Debug, PartialEq, Eq, Structural)]
pub struct Definition {
    pub id: u64,
    pub kind: DefinitionKind,
    pub location: Location,
    pub resolved: bool,
}

impl Definition {
    /// The placeholder recorded for a name that nothing defines.
    pub fn unresolved(kind: DefinitionKind, location: Location) -> (r: Definition)
        ensures
            r == (Definition { id: 0, kind, location, resolved: false }),
    {
        Definition { id: 0, kind, location, resolved: false }
    }
}

/// Whether a bare path is being resolved against function space or type
/// space.
#[derive(Clone, Copy, Debug, PartialEq, Eq, Structural)]
pub enum HirLevel {
    Expr,
    Type,
}

/// A use-site occurrence of a definition.
#[derive(Clone, Copy, Debug, PartialEq, Eq, Structural)]
pub struct Reference {
    pub definition: Definition,
    pub is_type_level: bool,
    pub location: Location,
}

/// The built-in types of the language.
#[derive(Clone, Copy, Debug, PartialEq, Eq, Structural)]
pub enum BuiltinType {
    Universe,
    This,
    Unit,
    String,
    Bool,
    Nat,
    Int8,
    UInt8,
    Int16,
    UInt16,
    Int32,
    UInt32,
    Int64,
    UInt64,
}

#[derive(Clone, Debug, PartialEq, Eq)]
pub enum Literal {
    Int(i64),
    String(String),
    Bool(bool),
    Unit,
}

impl Literal {
    pub fn copy(&self) -> (r: Literal)
        ensures
            r == *self,
    {
        match self {
            Literal::Int(n) => Literal::Int(*n),
            Literal::String(s) => Literal::String(s.clone()),
            Literal::Bool(b) => Literal::Bool(*b),
            Literal::Unit => Literal::Unit,
        }
    }
}

#[derive(Debug)]
pub enum Pattern {
    Empty,
    Literal(Literal, Location),
    Wildcard(Location),
    Rest(Location),
    Constructor(Reference, Vec<Pattern>, Location),
    Binding(Definition, Location),
}

#[derive(Clone, Copy, Debug, PartialEq, Eq, Structural)]
pub enum CallKind {
    Prefix,
    Infix,
}

#[derive(Debug)]
pub enum Callee {
    Array,
    Tuple,
    Unit,
    Pure,
    Reference(Reference),
    Expr(Box<Expr>),
}

#[derive(Debug)]
pub enum Stmt {
    Empty,
    Let(Pattern, Expr),
    Ask(Pattern, Expr),
    Downgrade(Expr),
}

#[derive(Debug)]
pub struct Block {
    pub statements: Vec<Stmt>,
    pub location: Location,
}

#[derive(Debug)]
pub struct CallExpr {
    pub kind: CallKind,
    pub callee: Callee,
    pub arguments: Vec<Expr>,
    pub do_notation: Option<Block>,
    pub location: Location,
}

#[derive(Debug)]
pub struct AnnExpr {
    pub value: Box<Expr>,
    pub type_rep: TypeRep,
    pub location: Location,
}

#[derive(Debug)]
pub struct LamExpr {
    pub parameters: Vec<Pattern>,
    pub value: Box<Expr>,
    pub location: Location,
    pub scope: ScopeFrame,
}

#[derive(Clone, Copy, Debug, PartialEq, Eq, Structural)]
pub enum MatchKind {
    Match,
    If,
}

#[derive(Debug)]
pub struct MatchArm {
    pub pattern: Pattern,
    pub value: Expr,
    pub location: Location,
}

#[derive(Debug)]
pub struct MatchExpr {
    pub kind: MatchKind,
    pub scrutinee: Box<Expr>,
    pub clauses: Vec<MatchArm>,
    pub location: Location,
}

/// A parameter of a pi or sigma type. `binding` is `Pattern::Empty` for a
/// parameter given only by its type.
#[derive(Debug)]
pub struct Parameter {
    pub binding: Pattern,
    pub type_rep: TypeRep,
    pub is_implicit: bool,
    pub rigid: bool,
    pub level: HirLevel,
    pub location: Location,
}

/// A dependent function (pi) or pair (sigma) type.
#[derive(Debug)]
pub struct Pi {
    pub parameters: Vec<Parameter>,
    pub value: Box<TypeRep>,
    pub location: Location,
}

#[derive(Debug)]
pub enum Expr {
    Empty,
    Error(Location),
    Path(Reference),
    Literal(Literal, Location),
    Type(BuiltinType, Location),
    Call(CallExpr),
    Ann(AnnExpr),
    Lam(LamExpr),
    Match(MatchExpr),
    Upgrade(Box<TypeRep>),
    Pi(Pi),
    Sigma(Pi),
    Hole(Location),
}

/// A type-level expression: an expression wrapped so that type and term
/// level share one representation and stay distinguishable.
#[derive(Debug)]
pub struct TypeRep {
    pub expr: Box<Expr>,
}

impl Parameter {
    /// A parameter given only by its type: it binds no name.
    pub fn unnamed(type_rep: TypeRep, location: Location) -> (r: Parameter)
        ensures
            r == (Parameter {
                binding: Pattern::Empty,
                type_rep,
                is_implicit: false,
                rigid: false,
                level: HirLevel::Type,
                location,
            }),
    {
        Parameter {
            binding: Pattern::Empty,
            type_rep,
            is_implicit: false,
            rigid: false,
            level: HirLevel::Type,
            location,
        }
    }
}

pub open spec fn spec_pattern_location(p: Pattern) -> Location {
    match p {
        Pattern::Empty => Location::CallSite,
        Pattern::Literal(_, l) => l,
        Pattern::Wildcard(l) => l,
        Pattern::Rest(l) => l,
        Pattern::Constructor(_, _, l) => l,
        Pattern::Binding(_, l) => l,
    }
}

impl Pattern {
    pub fn location(&self) -> (r: Location)
        ensures
            r == spec_pattern_location(*self),
    {
        match self {
            Pattern::Empty => Location::CallSite,
            Pattern::Literal(_, l) => *l,
            Pattern::Wildcard(l) => *l,
            Pattern::Rest(l) => *l,
            Pattern::Constructor(_, _, l) => *l,
            Pattern::Binding(_, l) => *l,
        }
    }
}

/// The location of an expression; an upgraded type takes that of the
/// expression it wraps.
pub open spec fn spec_expr_location(e: Expr) -> Location
    decreases e,
{
    match e {
        Expr::Empty => Location::CallSite,
        Expr::Error(l) => l,
        Expr::Path(r) => r.location,
        Expr::Literal(_, l) => l,
        Expr::Type(_, l) => l,
        Expr::Call(c) => c.location,
        Expr::Ann(a) => a.location,
        Expr::Lam(l) => l.location,
        Expr::Match(m) => m.location,
        Expr::Upgrade(t) => spec_expr_location(*t.expr),
        Expr::Pi(p) => p.location,
        Expr::Sigma(p) => p.location,
        Expr::Hole(l) => l,
    }
}

impl Expr {
    pub fn location(&self) -> (r: Location)
        ensures
            r == spec_expr_location(*self),
        decreases *self,
    {
        match self {
            Expr::Empty => Location::CallSite,
            Expr::Error(l) => *l,
            Expr::Path(r) => r.location,
            Expr::Literal(_, l) => *l,
            Expr::Type(_, l) => *l,
            Expr::Call(c) => c.location,
            Expr::Ann(a) => a.location,
            Expr::Lam(l) => l.location,
            Expr::Match(m) => m.location,
            Expr::Upgrade(t) => t.expr.location(),
            Expr::Pi(p) => p.location,
            Expr::Sigma(p) => p.location,
            Expr::Hole(l) => *l,
        }
    }

    /// Wraps a term-level expression as a type-level one.
    pub fn upgrade(self) -> (r: TypeRep)
        ensures
            r == spec_upgrade(self),
    {
        TypeRep { expr: Box::new(self) }
    }

    /// A block used as an expression: a prefix call of the unit callee whose
    /// do-notation is the block.
    pub fn block(block: Block) -> (r: Expr)
        ensures
            r matches Expr::Call(c) && c.kind == CallKind::Prefix && c.callee == Callee::Unit
                && c.arguments@.len() == 0 && c.do_notation == Some(block) && c.location == block.location,
    {
        let location = block.location;
        Expr::Call(CallExpr {
            kind: CallKind::Prefix,
            callee: Callee::Unit,
            arguments: Vec::new(),
            do_notation: Some(block),
            location,
        })
    }

    /// The unit value `()` at the given location.
    pub fn call_unit_expr(location: Location) -> (r: Expr)
        ensures
            r matches Expr::Call(c) && c.kind == CallKind::Prefix && c.callee == Callee::Unit
                && c.arguments@.len() == 0 && c.do_notation.is_none() && c.location == location,
    {
        Expr::Call(CallExpr {
            kind: CallKind::Prefix,
            callee: Callee::Unit,
            arguments: Vec::new(),
            do_notation: None,
            location,
        })
    }
}

impl TypeRep {
    /// Unwraps a type-level expression back to the expression it holds.
    pub fn downgrade(self) -> (r: Expr)
        ensures
            r == spec_downgrade(self),
    {
        *self.expr
    }
}

pub open spec fn spec_upgrade(e: Expr) -> TypeRep {
    TypeRep { expr: Box::new(e) }
}

pub open spec fn spec_downgrade(t: TypeRep) -> Expr {
    *t.expr
}

/// Wrapping an expression as a type and unwrapping it again gives back the
/// same expression: the two conversions lose nothing.
pub proof fn lemma_upgrade_downgrade(e: Expr)
    ensures
        spec_downgrade(spec_upgrade(e)) == e,
{
}

/// Unwrapping a type and wrapping the result again gives back the same type.
pub proof fn lemma_downgrade_upgrade(t: TypeRep)
    ensures
        spec_upgrade(spec_downgrade(t)) == t,
{
}

} // verus!
