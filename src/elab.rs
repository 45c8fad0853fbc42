//! Bidirectional elaboration of high-level expressions into checked terms:
//! `thir_check` against an expected type, `thir_infer` synthesizing one.
//! Every judgment takes a recursion budget and fails with `TooDeep` when the
//! budget or the binder depth runs out.
use vstd::prelude::*;

use std::rc::Rc;

use crate::context::{Context, binder_level, binders_view, spec_bind};
use crate::hir::{BuiltinType, Definition, DefinitionKind, Expr, LamExpr, Literal, Location, Pattern, Pi as HirPi, spec_expr_location};
use crate::meta::{MetaState, MetaStore, UnifyError, lemma_store_grows_trans, same_kind, spec_force, spec_unify, store_grows};
use crate::value::{Closure, Constructor, ConstructorKind, Implicitness, Pi, Term, Type, Value, eval, quote, spec_apply, spec_eval, spec_quote};

verus! {

/// The budget `thir_check` and `thir_infer` start with.
pub const ELABORATION_DEPTH: u64 = 4096;

/// A construct that elaboration does not handle.
#[derive(Clone, Copy, Debug, PartialEq, Eq, Structural)]
pub struct UnsupportedTermError {
    pub location: Location,
}

#[derive(Clone, Copy, Debug, PartialEq, Eq, Structural)]
pub enum ElabError {
    UnsupportedTerm(UnsupportedTermError),
    /// A lambda checked against a type that is not a function type.
    ExpectedFunctionType(Location),
    /// A reference to a definition that has no known type.
    UnboundReference(Location),
    /// Unification failed; reported, not returned, by the checker.
    TypeMismatch(Location, UnifyError),
    TooDeep(Location),
}

/// A checked term and its type.
#[derive(Debug)]
pub struct ElaboratedTerm(pub Term, pub Type);

/// The type of a global definition.
#[derive(Debug)]
pub struct GlobalType {
    pub definition: Definition,
    pub type_rep: Rc<Value>,
}

/// The state elaboration threads through: metavariables, the types of
/// global definitions, and the diagnostics reported so far.
pub struct Elaborator {
    pub metas: MetaStore,
    pub globals: Vec<GlobalType>,
    pub primitives: Vec<PrimitiveType>,
    pub diagnostics: Vec<ElabError>,
}

/// A primitive definition of the registry and the built-in type it stands
/// for.
#[derive(Debug, Clone, Copy)]
pub struct PrimitiveType {
    pub definition: Definition,
    pub builtin: BuiltinType,
}

/// The constructor a built-in type other than the universe and `This`
/// elaborates to.
pub open spec fn builtin_kind(b: BuiltinType) -> ConstructorKind {
    match b {
        BuiltinType::Unit => ConstructorKind::UnitType,
        BuiltinType::String => ConstructorKind::StringType,
        BuiltinType::Bool => ConstructorKind::BooleanType,
        BuiltinType::Nat => ConstructorKind::NatType,
        BuiltinType::Int8 => ConstructorKind::IntType(true, 8),
        BuiltinType::UInt8 => ConstructorKind::IntType(false, 8),
        BuiltinType::Int16 => ConstructorKind::IntType(true, 16),
        BuiltinType::UInt16 => ConstructorKind::IntType(false, 16),
        BuiltinType::Int32 => ConstructorKind::IntType(true, 32),
        BuiltinType::UInt32 => ConstructorKind::IntType(false, 32),
        BuiltinType::Int64 => ConstructorKind::IntType(true, 64),
        _ => ConstructorKind::IntType(false, 64),
    }
}

/// The term of a built-in type: the universe is `U`; `This` has no meaning
/// outside a type definition and is unsupported here.
pub fn create_from_type(definition: BuiltinType, location: Location) -> (r: Result<Term, UnsupportedTermError>)
    ensures
        definition == BuiltinType::Universe ==> r == Ok::<Term, UnsupportedTermError>(Term::U),
        definition == BuiltinType::This ==> r == Err::<Term, UnsupportedTermError>(UnsupportedTermError { location }),
        definition != BuiltinType::Universe && definition != BuiltinType::This ==> r == Ok::<Term, UnsupportedTermError>(
            Term::Constructor(Constructor { kind: builtin_kind(definition), location }),
        ),
{
    let kind = match definition {
        BuiltinType::Universe => {
            return Ok(Term::U);
        },
        BuiltinType::This => {
            return Err(UnsupportedTermError { location });
        },
        BuiltinType::Unit => ConstructorKind::UnitType,
        BuiltinType::String => ConstructorKind::StringType,
        BuiltinType::Bool => ConstructorKind::BooleanType,
        BuiltinType::Nat => ConstructorKind::NatType,
        BuiltinType::Int8 => ConstructorKind::IntType(true, 8),
        BuiltinType::UInt8 => ConstructorKind::IntType(false, 8),
        BuiltinType::Int16 => ConstructorKind::IntType(true, 16),
        BuiltinType::UInt16 => ConstructorKind::IntType(false, 16),
        BuiltinType::Int32 => ConstructorKind::IntType(true, 32),
        BuiltinType::UInt32 => ConstructorKind::IntType(false, 32),
        BuiltinType::Int64 => ConstructorKind::IntType(true, 64),
        BuiltinType::UInt64 => ConstructorKind::IntType(false, 64),
    };
    Ok(Term::Constructor(Constructor { kind, location }))
}

/// The constructor a literal denotes.
pub open spec fn literal_kind(l: Literal) -> ConstructorKind {
    match l {
        Literal::Int(n) => ConstructorKind::Int(n),
        Literal::String(s) => ConstructorKind::String(s),
        Literal::Bool(true) => ConstructorKind::True,
        Literal::Bool(false) => ConstructorKind::False,
        Literal::Unit => ConstructorKind::Unit,
    }
}

/// The type of a literal: integers are `Int32`.
pub open spec fn literal_type_kind(l: Literal) -> ConstructorKind {
    match l {
        Literal::Int(_) => ConstructorKind::IntType(true, 32),
        Literal::String(_) => ConstructorKind::StringType,
        Literal::Bool(_) => ConstructorKind::BooleanType,
        Literal::Unit => ConstructorKind::UnitType,
    }
}

fn literal_constructor(l: &Literal) -> (r: (ConstructorKind, ConstructorKind))
    ensures
        r == (literal_kind(*l), literal_type_kind(*l)),
{
    match l {
        Literal::Int(n) => (ConstructorKind::Int(*n), ConstructorKind::IntType(true, 32)),
        Literal::String(s) => (ConstructorKind::String(s.clone()), ConstructorKind::StringType),
        Literal::Bool(b) => if *b {
            (ConstructorKind::True, ConstructorKind::BooleanType)
        } else {
            (ConstructorKind::False, ConstructorKind::BooleanType)
        },
        Literal::Unit => (ConstructorKind::Unit, ConstructorKind::UnitType),
    }
}

/// The binder a lambda parameter introduces, if it is a plain binding.
fn parameter_definition(p: &Pattern) -> (r: Result<Definition, ElabError>)
    ensures
        r == spec_parameter_definition(*p),
{
    match p {
        Pattern::Binding(d, _) => Ok(*d),
        _ => Err(ElabError::UnsupportedTerm(UnsupportedTermError { location: p.location() })),
    }
}

/// The binder standing for a pi parameter that has no name.
pub open spec fn anonymous_binder() -> Definition {
    Definition { id: 0, kind: DefinitionKind::Function, location: Location::CallSite, resolved: false }
}

/// The type of the latest of the first `n` declarations of `definition`.
pub open spec fn latest_global(globals: Seq<GlobalType>, definition: Definition, n: int) -> Option<Rc<Value>>
    decreases n,
{
    if n <= 0 {
        None
    } else if globals[n - 1].definition == definition {
        Some(globals[n - 1].type_rep)
    } else {
        latest_global(globals, definition, n - 1)
    }
}

/// The unit of elaboration a one-parameter lambda `\d -> body` infers to,
/// where the body's term is `body` and its type quotes to `codomain`: an
/// explicit lambda, typed by an explicit pi over the fresh metavariable `m`.
pub open spec fn lam_outcome(d: Definition, m: u64, body: Term, codomain: Term, env: crate::value::Env) -> ElaboratedTerm {
    ElaboratedTerm(
        Term::Lam(d, Implicitness::Explicit, Rc::new(body)),
        Value::Pi(
            Pi {
                name: Some(d),
                implicitness: Implicitness::Explicit,
                domain: Rc::new(Value::Flexible(m)),
                codomain: Closure { env, expr: Rc::new(codomain) },
            },
        ),
    )
}

/// The type a primitive definition was declared as standing for.
pub open spec fn latest_primitive(primitives: Seq<PrimitiveType>, definition: Definition, n: int) -> Option<BuiltinType>
    decreases n,
{
    if n <= 0 {
        None
    } else if primitives[n - 1].definition == definition {
        Some(primitives[n - 1].builtin)
    } else {
        latest_primitive(primitives, definition, n - 1)
    }
}

/// The state elaboration changes: the metavariables and the diagnostics.
pub type ElabState = (Seq<MetaState>, Seq<ElabError>);

/// What elaboration reads and does not change: the declared globals and
/// primitives.
pub type ElabTables = (Seq<GlobalType>, Seq<PrimitiveType>);

pub open spec fn spec_parameter_definition(p: Pattern) -> Result<Definition, ElabError> {
    match p {
        Pattern::Binding(d, _) => Ok(d),
        _ => Err(ElabError::UnsupportedTerm(UnsupportedTermError { location: crate::hir::spec_pattern_location(p) })),
    }
}

/// The term of a built-in type, as `create_from_type` makes it.
pub open spec fn spec_create_from_type(b: BuiltinType, location: Location) -> Result<Term, ElabError> {
    if b == BuiltinType::Universe {
        Ok(Term::U)
    } else if b == BuiltinType::This {
        Err(ElabError::UnsupportedTerm(UnsupportedTermError { location }))
    } else {
        Ok(Term::Constructor(Constructor { kind: builtin_kind(b), location }))
    }
}

/// Instantiating leading implicit pi types, at most `budget` of them.
pub open spec fn spec_insert_loop(metas: Seq<MetaState>, fuel: u64, budget: u64, lvl: u64, ty: Value) -> (
    Seq<MetaState>,
    Value,
)
    decreases budget,
{
    if budget == 0 {
        (metas, ty)
    } else {
        match spec_force(metas, fuel, ty) {
            Value::Pi(p) => if p.implicitness != Implicitness::Implicit {
                (metas, ty)
            } else {
                spec_insert_loop(
                    metas.push(MetaState::Unsolved(lvl)),
                    fuel,
                    (budget - 1) as u64,
                    lvl,
                    spec_apply(p.codomain, Value::Flexible(metas.len() as u64)),
                )
            },
            _ => (metas, ty),
        }
    }
}

pub open spec fn spec_insert(metas: Seq<MetaState>, fuel: u64, lvl: u64, ty: Value) -> (Seq<MetaState>, Value) {
    if ty is U || ty is Constructor {
        (metas, ty)
    } else {
        spec_insert_loop(metas, fuel, fuel, lvl, ty)
    }
}

/// Checking by inference: infer, instantiate leading implicit arguments, and
/// unify with the expected type. A failed unification is reported as a type
/// mismatch and the inferred term returned; an inference error is passed on.
pub open spec fn spec_term_equality(
    t: ElabTables,
    st: ElabState,
    fuel: u64,
    ctx: Context,
    expr: Expr,
    expected: Value,
) -> (ElabState, Result<Term, ElabError>)
    decreases fuel, 0nat,
{
    if fuel == 0 {
        (st, Err(ElabError::TooDeep(spec_expr_location(expr))))
    } else {
        let (st1, inferred) = spec_infer(t, st, (fuel - 1) as u64, ctx, expr);
        match inferred {
            Err(e) => (st1, Err(e)),
            Ok(ElaboratedTerm(term, ty)) => {
                let (metas2, ty2) = spec_insert(st1.0, fuel, ctx.lvl, ty);
                let (metas3, u) = spec_unify(metas2, fuel, ctx.lvl, expected, ty2);
                let diagnostics = match u {
                    Ok(_) => st1.1,
                    Err(cause) => st1.1.push(ElabError::TypeMismatch(spec_expr_location(expr), cause)),
                };
                ((metas3, diagnostics), Ok(term))
            },
        }
    }
}

/// Eta under an implicit pi type: the value checked against the codomain
/// applied to the next free variable, one binder deeper, wrapped in an
/// implicit lambda; an error of that check is passed on.
pub open spec fn spec_implicit_fun_eta(
    t: ElabTables,
    st: ElabState,
    fuel: u64,
    ctx: Context,
    value: Expr,
    pi: Pi,
) -> (ElabState, Result<Term, ElabError>)
    decreases fuel, 1nat,
{
    if fuel == 0 || ctx.lvl == u64::MAX {
        (st, Err(ElabError::TooDeep(spec_expr_location(value))))
    } else {
        let binder = match pi.name {
            Some(n) => n,
            None => anonymous_binder(),
        };
        let inner = spec_bind(ctx, binder, *pi.domain);
        let (st1, body) = spec_check(
            t,
            st,
            (fuel - 1) as u64,
            inner,
            value,
            spec_apply(pi.codomain, Value::Rigid(ctx.lvl)),
        );
        match body {
            Ok(b) => (st1, Ok(Term::Lam(binder, Implicitness::Implicit, Rc::new(b)))),
            Err(e) => (st1, Err(e)),
        }
    }
}

/// A lambda, from its `index`-th parameter on, against a function type: each
/// parameter binds the pi's domain and the rest is checked against the
/// codomain applied to the new variable; past the parameters, the body is
/// checked.
pub open spec fn spec_check_lam(
    t: ElabTables,
    st: ElabState,
    fuel: u64,
    ctx: Context,
    lam: LamExpr,
    index: int,
    ty: Value,
) -> (ElabState, Result<Term, ElabError>)
    decreases fuel, 2nat,
{
    if fuel == 0 {
        (st, Err(ElabError::TooDeep(lam.location)))
    } else if index >= lam.parameters@.len() {
        spec_check(t, st, (fuel - 1) as u64, ctx, *lam.value, ty)
    } else {
        match spec_force(st.0, fuel, ty) {
            Value::Pi(pi) => match spec_parameter_definition(lam.parameters@[index]) {
                Err(e) => (st, Err(e)),
                Ok(d) => if ctx.lvl == u64::MAX {
                    (st, Err(ElabError::TooDeep(lam.location)))
                } else {
                    let (st1, body) = spec_check_lam(
                        t,
                        st,
                        (fuel - 1) as u64,
                        spec_bind(ctx, d, *pi.domain),
                        lam,
                        index + 1,
                        spec_apply(pi.codomain, Value::Rigid(ctx.lvl)),
                    );
                    match body {
                        Ok(b) => (st1, Ok(Term::Lam(d, pi.implicitness, Rc::new(b)))),
                        Err(e) => (st1, Err(e)),
                    }
                },
            },
            _ => (st, Err(ElabError::ExpectedFunctionType(lam.location))),
        }
    }
}

/// Checking against an expected type, after forcing it: a lambda against a
/// pi type, eta under an implicit pi type, a lambda against anything else is
/// an error, a hole is a fresh metavariable, and anything else is checked by
/// inference.
pub open spec fn spec_check(
    t: ElabTables,
    st: ElabState,
    fuel: u64,
    ctx: Context,
    expr: Expr,
    ty: Value,
) -> (ElabState, Result<Term, ElabError>)
    decreases fuel, 3nat,
{
    if fuel == 0 {
        (st, Err(ElabError::TooDeep(spec_expr_location(expr))))
    } else {
        let forced = spec_force(st.0, fuel, ty);
        match (expr, forced) {
            (Expr::Lam(lam), Value::Pi(_)) => spec_check_lam(t, st, (fuel - 1) as u64, ctx, lam, 0, forced),
            (_, Value::Pi(pi)) => if pi.implicitness == Implicitness::Implicit {
                spec_implicit_fun_eta(t, st, (fuel - 1) as u64, ctx, expr, pi)
            } else {
                match expr {
                    Expr::Hole(_) => (
                        (st.0.push(MetaState::Unsolved(ctx.lvl)), st.1),
                        Ok(Term::InsertedMeta(st.0.len() as u64)),
                    ),
                    _ => spec_term_equality(t, st, (fuel - 1) as u64, ctx, expr, ty),
                }
            },
            (Expr::Lam(lam), _) => (st, Err(ElabError::ExpectedFunctionType(lam.location))),
            (Expr::Hole(_), _) => (
                (st.0.push(MetaState::Unsolved(ctx.lvl)), st.1),
                Ok(Term::InsertedMeta(st.0.len() as u64)),
            ),
            _ => spec_term_equality(t, st, (fuel - 1) as u64, ctx, expr, ty),
        }
    }
}

/// A lambda inferred from its `index`-th parameter on: each parameter gets a
/// fresh metavariable as its type, the rest is inferred one binder deeper, and
/// the result is a lambda over the inferred body typed by a pi whose codomain
/// is the body's type read back, closed over the current environment.
pub open spec fn spec_infer_lam(
    t: ElabTables,
    st: ElabState,
    fuel: u64,
    ctx: Context,
    lam: LamExpr,
    index: int,
) -> (ElabState, Result<ElaboratedTerm, ElabError>)
    decreases fuel, 4nat,
{
    if fuel == 0 {
        (st, Err(ElabError::TooDeep(lam.location)))
    } else if index >= lam.parameters@.len() {
        spec_infer(t, st, (fuel - 1) as u64, ctx, *lam.value)
    } else {
        match spec_parameter_definition(lam.parameters@[index]) {
            Err(e) => (st, Err(e)),
            Ok(d) => if ctx.lvl == u64::MAX {
                (st, Err(ElabError::TooDeep(lam.location)))
            } else {
                let m = st.0.len() as u64;
                let inner = spec_bind(ctx, d, Value::Flexible(m));
                let (st1, rest) = spec_infer_lam(
                    t,
                    (st.0.push(MetaState::Unsolved(ctx.lvl)), st.1),
                    (fuel - 1) as u64,
                    inner,
                    lam,
                    index + 1,
                );
                match rest {
                    Err(e) => (st1, Err(e)),
                    Ok(ElaboratedTerm(body, body_type)) => match spec_quote(fuel as nat, inner.lvl, body_type) {
                        None => (st1, Err(ElabError::TooDeep(lam.location))),
                        Some(codomain) => (st1, Ok(lam_outcome(d, m, body, codomain, ctx.env))),
                    },
                }
            },
        }
    }
}

/// A pi type's parameters from the `index`-th on, folded from the right:
/// each declared type is checked against the universe and bound for the
/// rest, whose term becomes the codomain.
pub open spec fn spec_infer_pi(
    t: ElabTables,
    st: ElabState,
    fuel: u64,
    ctx: Context,
    pi: HirPi,
    index: int,
) -> (ElabState, Result<Term, ElabError>)
    decreases fuel, 4nat,
{
    if fuel == 0 {
        (st, Err(ElabError::TooDeep(pi.location)))
    } else if index >= pi.parameters@.len() {
        spec_check(t, st, (fuel - 1) as u64, ctx, *pi.value.expr, Value::U)
    } else {
        let parameter = pi.parameters@[index];
        let (st1, domain) = spec_check(t, st, (fuel - 1) as u64, ctx, *parameter.type_rep.expr, Value::U);
        match domain {
            Err(e) => (st1, Err(e)),
            Ok(dom) => {
                let name = match parameter.binding {
                    Pattern::Binding(d, _) => Some(d),
                    _ => None,
                };
                let binder = match name {
                    Some(d) => d,
                    None => anonymous_binder(),
                };
                let icit = if parameter.is_implicit {
                    Implicitness::Implicit
                } else {
                    Implicitness::Explicit
                };
                if ctx.lvl == u64::MAX {
                    (st1, Err(ElabError::TooDeep(pi.location)))
                } else {
                    let (st2, rest) = spec_infer_pi(
                        t,
                        st1,
                        (fuel - 1) as u64,
                        spec_bind(ctx, binder, spec_eval(ctx.env, dom)),
                        pi,
                        index + 1,
                    );
                    match rest {
                        Ok(codomain) => (st2, Ok(Term::Pi(name, icit, Rc::new(dom), Rc::new(codomain)))),
                        Err(e) => (st2, Err(e)),
                    }
                }
            },
        }
    }
}

/// Inference: unsupported forms fail; a path is its innermost bound
/// variable, else its primitive type, else a reference to its global; a
/// literal and a built-in type are constructors; an annotation checks its
/// type against the universe, evaluates it and checks the value against it;
/// lambdas and pi types as above; a hole is a fresh metavariable typed by
/// another.
pub open spec fn spec_infer(t: ElabTables, st: ElabState, fuel: u64, ctx: Context, expr: Expr) -> (
    ElabState,
    Result<ElaboratedTerm, ElabError>,
)
    decreases fuel, 5nat,
{
    if fuel == 0 {
        (st, Err(ElabError::TooDeep(spec_expr_location(expr))))
    } else {
        match expr {
            Expr::Empty | Expr::Error(_) | Expr::Match(_) | Expr::Sigma(_) | Expr::Call(_) => (
                st,
                Err(ElabError::UnsupportedTerm(UnsupportedTermError { location: spec_expr_location(expr) })),
            ),
            Expr::Upgrade(ty) => spec_infer(t, st, (fuel - 1) as u64, ctx, *ty.expr),
            Expr::Path(reference) => (st, match binder_level(binders_view(ctx.binders), reference.definition, ctx.lvl as int) {
                Some(l) => Ok(ElaboratedTerm(Term::Var(l as u64), binders_view(ctx.binders)[l].1)),
                None => match latest_primitive(t.1, reference.definition, t.1.len() as int) {
                    Some(b) => match spec_create_from_type(b, reference.location) {
                        Ok(term) => Ok(ElaboratedTerm(term, Value::U)),
                        Err(e) => Err(e),
                    },
                    None => match latest_global(t.0, reference.definition, t.0.len() as int) {
                        Some(ty) => Ok(
                            ElaboratedTerm(
                                Term::Constructor(
                                    Constructor { kind: ConstructorKind::Reference(reference), location: reference.location },
                                ),
                                *ty,
                            ),
                        ),
                        None => Err(ElabError::UnboundReference(reference.location)),
                    },
                },
            }),
            Expr::Literal(l, location) => (
                st,
                Ok(
                    ElaboratedTerm(
                        Term::Constructor(Constructor { kind: literal_kind(l), location }),
                        Value::Constructor(Constructor { kind: literal_type_kind(l), location }),
                    ),
                ),
            ),
            Expr::Type(b, location) => (st, match spec_create_from_type(b, location) {
                Ok(term) => Ok(ElaboratedTerm(term, Value::U)),
                Err(e) => Err(e),
            }),
            Expr::Ann(ann) => {
                let (st1, annotation) = spec_check(t, st, (fuel - 1) as u64, ctx, *ann.type_rep.expr, Value::U);
                match annotation {
                    Err(e) => (st1, Err(e)),
                    Ok(a) => {
                        let actual = spec_eval(ctx.env, a);
                        let (st2, value) = spec_check(t, st1, (fuel - 1) as u64, ctx, *ann.value, actual);
                        match value {
                            Ok(v) => (st2, Ok(ElaboratedTerm(v, actual))),
                            Err(e) => (st2, Err(e)),
                        }
                    },
                }
            },
            Expr::Lam(lam) => spec_infer_lam(t, st, (fuel - 1) as u64, ctx, lam, 0),
            Expr::Pi(pi) => {
                let (st1, term) = spec_infer_pi(t, st, (fuel - 1) as u64, ctx, pi, 0);
                match term {
                    Ok(tm) => (st1, Ok(ElaboratedTerm(tm, Value::U))),
                    Err(e) => (st1, Err(e)),
                }
            },
            Expr::Hole(_) => {
                let m = st.0.len() as u64;
                (
                    (st.0.push(MetaState::Unsolved(ctx.lvl)).push(MetaState::Unsolved(ctx.lvl)), st.1),
                    Ok(ElaboratedTerm(Term::InsertedMeta(m), Value::Flexible((m + 1) as u64))),
                )
            },
        }
    }
}

impl Elaborator {
    /// What elaboration changes.
    pub open spec fn state(&self) -> ElabState {
        (self.metas.metas@, self.diagnostics@)
    }

    /// What elaboration reads.
    pub open spec fn tables(&self) -> ElabTables {
        (self.globals@, self.primitives@)
    }

    pub fn new() -> (r: Elaborator)
        ensures
            r.metas.metas@.len() == 0,
            r.globals@.len() == 0,
            r.primitives@.len() == 0,
            r.diagnostics@.len() == 0,
    {
        Elaborator { metas: MetaStore::new(), globals: Vec::new(), primitives: Vec::new(), diagnostics: Vec::new() }
    }

    /// Records the type of a global definition.
    pub fn declare_global(&mut self, definition: Definition, type_rep: Value)
        ensures
            final(self).globals@ == old(self).globals@.push(GlobalType { definition, type_rep: Rc::new(type_rep) }),
            final(self).primitives == old(self).primitives,
            final(self).metas == old(self).metas,
            final(self).diagnostics == old(self).diagnostics,
    {
        self.globals.push(GlobalType { definition, type_rep: Rc::new(type_rep) });
    }

    /// Records that a primitive definition of the registry stands for a
    /// built-in type.
    pub fn declare_primitive(&mut self, definition: Definition, builtin: BuiltinType)
        ensures
            final(self).primitives@ == old(self).primitives@.push(PrimitiveType { definition, builtin }),
            final(self).globals == old(self).globals,
            final(self).metas == old(self).metas,
            final(self).diagnostics == old(self).diagnostics,
    {
        self.primitives.push(PrimitiveType { definition, builtin });
    }

    /// The type of a global definition, the latest declared.
    pub fn global_type(&self, definition: Definition) -> (r: Option<Rc<Value>>)
        ensures
            r == latest_global(self.globals@, definition, self.globals@.len() as int),
    {
        let mut i: usize = self.globals.len();
        while i > 0
            invariant
                i <= self.globals@.len(),
                latest_global(self.globals@, definition, self.globals@.len() as int) == latest_global(
                    self.globals@,
                    definition,
                    i as int,
                ),
            decreases i,
        {
            i = i - 1;
            if self.globals[i].definition == definition {
                return Some(self.globals[i].type_rep.clone());
            }
        }
        None
    }

    /// The built-in type a primitive definition stands for, the latest
    /// declared.
    pub fn primitive_type(&self, definition: Definition) -> (r: Option<BuiltinType>)
        ensures
            r == latest_primitive(self.primitives@, definition, self.primitives@.len() as int),
    {
        let mut i: usize = self.primitives.len();
        while i > 0
            invariant
                i <= self.primitives@.len(),
                latest_primitive(self.primitives@, definition, self.primitives@.len() as int) == latest_primitive(
                    self.primitives@,
                    definition,
                    i as int,
                ),
            decreases i,
        {
            i = i - 1;
            if self.primitives[i].definition == definition {
                return Some(self.primitives[i].builtin);
            }
        }
        None
    }

    /// Instantiates the leading implicit pi types of `ty` with fresh
    /// metavariables, so that the type matches a use where those arguments
    /// are left implicit.
    fn insert(&mut self, fuel: u64, lvl: u64, ty: Type) -> (r: Type)
        ensures
            (final(self).metas.metas@, r) == spec_insert(old(self).metas.metas@, fuel, lvl, ty),
            store_grows(old(self).metas.metas@, final(self).metas.metas@),
            final(self).globals == old(self).globals,
            final(self).primitives == old(self).primitives,
            final(self).diagnostics == old(self).diagnostics,
    {
        match &ty {
            Value::U | Value::Constructor(_) => {
                return ty;
            },
            _ => {},
        }
        let ghost goal = spec_insert(old(self).metas.metas@, fuel, lvl, ty);
        let mut current = ty.copy();
        let mut budget = fuel;
        while budget > 0
            invariant
                goal == spec_insert_loop(self.metas.metas@, fuel, budget, lvl, current),
                goal == spec_insert(old(self).metas.metas@, fuel, lvl, ty),
                store_grows(old(self).metas.metas@, self.metas.metas@),
                self.globals == old(self).globals,
                self.primitives == old(self).primitives,
                self.diagnostics == old(self).diagnostics,
            decreases budget,
        {
            let forced = self.metas.force(fuel, &current);
            proof {
                assert(budget > 0);
                assert(goal == match spec_force(self.metas.metas@, fuel, current) {
                    Value::Pi(p) => if p.implicitness != Implicitness::Implicit {
                        (self.metas.metas@, current)
                    } else {
                        spec_insert_loop(
                            self.metas.metas@.push(MetaState::Unsolved(lvl)),
                            fuel,
                            (budget - 1) as u64,
                            lvl,
                            spec_apply(p.codomain, Value::Flexible(self.metas.metas@.len() as u64)),
                        )
                    },
                    _ => (self.metas.metas@, current),
                });
            }
            match forced {
                Value::Pi(pi) => {
                    if pi.implicitness != Implicitness::Implicit {
                        assert(goal == (self.metas.metas@, current));
                        return current;
                    }
                    let m = self.metas.fresh(lvl);
                    current = pi.codomain.apply(Value::Flexible(m));
                },
                _ => {
                    assert(goal == (self.metas.metas@, current));
                    return current;
                },
            }
            budget = budget - 1;
        }
        current
    }

    /// Checks `expr` by inferring its type and unifying that with the
    /// expected one: see `spec_term_equality`.
    fn term_equality(&mut self, fuel: u64, ctx: &Context, expr: &Expr, expected: &Type) -> (r: Result<Term, ElabError>)
        requires
            ctx.wf(),
        ensures
            (final(self).state(), r) == spec_term_equality(old(self).tables(), old(self).state(), fuel, *ctx, *expr, *expected),
            store_grows(old(self).metas.metas@, final(self).metas.metas@),
            final(self).globals == old(self).globals,
            final(self).primitives == old(self).primitives,
        decreases fuel, 0nat,
    {
        if fuel == 0 {
            return Err(ElabError::TooDeep(expr.location()));
        }
        let ghost mid0 = self.metas.metas@;
        let inferred = self.infer(fuel - 1, ctx, expr);
        match inferred {
            Err(e) => Err(e),
            Ok(ElaboratedTerm(term, ty)) => {
                let ghost mid1 = self.metas.metas@;
                let ty = self.insert(fuel, ctx.lvl, ty);
                let ghost mid2 = self.metas.metas@;
                let unified = self.metas.unify(fuel, ctx.lvl, expected, &ty);
                proof {
                    lemma_store_grows_trans(old(self).metas.metas@, mid1, mid2);
                    lemma_store_grows_trans(old(self).metas.metas@, mid2, self.metas.metas@);
                }
                match unified {
                    Ok(()) => {},
                    Err(cause) => {
                        self.diagnostics.push(ElabError::TypeMismatch(expr.location(), cause));
                    },
                }
                Ok(term)
            },
        }
    }

    /// Checks a value against an implicit pi type by wrapping it in an
    /// implicit lambda: see `spec_implicit_fun_eta`.
    fn implicit_fun_eta(&mut self, fuel: u64, ctx: &Context, value: &Expr, pi: &Pi) -> (r: Result<Term, ElabError>)
        requires
            ctx.wf(),
        ensures
            (final(self).state(), r) == spec_implicit_fun_eta(old(self).tables(), old(self).state(), fuel, *ctx, *value, *pi),
            store_grows(old(self).metas.metas@, final(self).metas.metas@),
            final(self).globals == old(self).globals,
            final(self).primitives == old(self).primitives,
        decreases fuel, 1nat,
    {
        if fuel == 0 || ctx.lvl == u64::MAX {
            return Err(ElabError::TooDeep(value.location()));
        }
        let binder = match pi.name {
            Some(n) => n,
            None => Definition { id: 0, kind: DefinitionKind::Function, location: Location::CallSite, resolved: false },
        };
        let inner = ctx.bind(binder, (*pi.domain).copy());
        let codomain = pi.codomain.apply(Value::Rigid(ctx.lvl));
        match self.check(fuel - 1, &inner, value, &codomain) {
            Ok(body) => Ok(Term::Lam(binder, Implicitness::Implicit, Rc::new(body))),
            Err(e) => Err(e),
        }
    }

    /// Checks the parameters of a lambda from the `index`-th on against a
    /// function type, then its body: see `spec_check_lam`.
    fn check_lam(&mut self, fuel: u64, ctx: &Context, lam: &LamExpr, index: usize, ty: &Type) -> (r: Result<Term, ElabError>)
        requires
            ctx.wf(),
        ensures
            (final(self).state(), r) == spec_check_lam(
                old(self).tables(),
                old(self).state(),
                fuel,
                *ctx,
                *lam,
                index as int,
                *ty,
            ),
            store_grows(old(self).metas.metas@, final(self).metas.metas@),
            final(self).globals == old(self).globals,
            final(self).primitives == old(self).primitives,
        decreases fuel, 2nat,
    {
        if fuel == 0 {
            return Err(ElabError::TooDeep(lam.location));
        }
        if index >= lam.parameters.len() {
            return self.check(fuel - 1, ctx, &lam.value, ty);
        }
        let forced = self.metas.force(fuel, ty);
        match forced {
            Value::Pi(pi) => {
                let d = match parameter_definition(&lam.parameters[index]) {
                    Ok(d) => d,
                    Err(e) => {
                        return Err(e);
                    },
                };
                if ctx.lvl == u64::MAX {
                    return Err(ElabError::TooDeep(lam.location));
                }
                let inner = ctx.bind(d, (*pi.domain).copy());
                let codomain = pi.codomain.apply(Value::Rigid(ctx.lvl));
                match self.check_lam(fuel - 1, &inner, lam, index + 1, &codomain) {
                    Ok(body) => Ok(Term::Lam(d, pi.implicitness, Rc::new(body))),
                    Err(e) => Err(e),
                }
            },
            _ => Err(ElabError::ExpectedFunctionType(lam.location)),
        }
    }

    /// Checks `expr` against the expected type `ty`: see `spec_check`.
    pub fn check(&mut self, fuel: u64, ctx: &Context, expr: &Expr, ty: &Type) -> (r: Result<Term, ElabError>)
        requires
            ctx.wf(),
        ensures
            (final(self).state(), r) == spec_check(old(self).tables(), old(self).state(), fuel, *ctx, *expr, *ty),
            store_grows(old(self).metas.metas@, final(self).metas.metas@),
            final(self).globals == old(self).globals,
            final(self).primitives == old(self).primitives,
        decreases fuel, 3nat,
    {
        if fuel == 0 {
            return Err(ElabError::TooDeep(expr.location()));
        }
        let forced = self.metas.force(fuel, ty);
        match (expr, &forced) {
            (Expr::Lam(lam), Value::Pi(_)) => self.check_lam(fuel - 1, ctx, lam, 0, &forced),
            (_, Value::Pi(pi)) if pi.implicitness == Implicitness::Implicit => self.implicit_fun_eta(fuel - 1, ctx, expr, pi),
            (Expr::Lam(lam), _) => Err(ElabError::ExpectedFunctionType(lam.location)),
            (Expr::Hole(_), _) => Ok(Term::InsertedMeta(self.metas.fresh(ctx.lvl))),
            _ => self.term_equality(fuel - 1, ctx, expr, ty),
        }
    }

    /// Infers a lambda from its `index`-th parameter on: see
    /// `spec_infer_lam`.
    fn infer_lam(&mut self, fuel: u64, ctx: &Context, lam: &LamExpr, index: usize) -> (r: Result<ElaboratedTerm, ElabError>)
        requires
            ctx.wf(),
        ensures
            (final(self).state(), r) == spec_infer_lam(old(self).tables(), old(self).state(), fuel, *ctx, *lam, index as int),
            store_grows(old(self).metas.metas@, final(self).metas.metas@),
            final(self).globals == old(self).globals,
            final(self).primitives == old(self).primitives,
        decreases fuel, 4nat,
    {
        if fuel == 0 {
            return Err(ElabError::TooDeep(lam.location));
        }
        if index >= lam.parameters.len() {
            return self.infer(fuel - 1, ctx, &lam.value);
        }
        let d = match parameter_definition(&lam.parameters[index]) {
            Ok(d) => d,
            Err(e) => {
                return Err(e);
            },
        };
        if ctx.lvl == u64::MAX {
            return Err(ElabError::TooDeep(lam.location));
        }
        let m = self.metas.fresh(ctx.lvl);
        let ghost mid = self.metas.metas@;
        assert(store_grows(old(self).metas.metas@, mid));
        let inner = ctx.bind(d, Value::Flexible(m));
        let inner_result = self.infer_lam(fuel - 1, &inner, lam, index + 1);
        proof {
            lemma_store_grows_trans(old(self).metas.metas@, mid, self.metas.metas@);
        }
        match inner_result {
            Err(e) => Err(e),
            Ok(ElaboratedTerm(body, body_type)) => match quote(fuel, inner.lvl, &body_type) {
                None => Err(ElabError::TooDeep(lam.location)),
                Some(codomain) => Ok(
                    ElaboratedTerm(
                        Term::Lam(d, Implicitness::Explicit, Rc::new(body)),
                        Value::Pi(
                            Pi {
                                name: Some(d),
                                implicitness: Implicitness::Explicit,
                                domain: Rc::new(Value::Flexible(m)),
                                codomain: Closure { env: ctx.env.copy(), expr: Rc::new(codomain) },
                            },
                        ),
                    ),
                ),
            },
        }
    }

    /// Elaborates the parameters of a pi type from the `index`-th on: see
    /// `spec_infer_pi`.
    fn infer_pi(&mut self, fuel: u64, ctx: &Context, pi: &HirPi, index: usize) -> (r: Result<Term, ElabError>)
        requires
            ctx.wf(),
        ensures
            (final(self).state(), r) == spec_infer_pi(old(self).tables(), old(self).state(), fuel, *ctx, *pi, index as int),
            store_grows(old(self).metas.metas@, final(self).metas.metas@),
            final(self).globals == old(self).globals,
            final(self).primitives == old(self).primitives,
        decreases fuel, 4nat,
    {
        if fuel == 0 {
            return Err(ElabError::TooDeep(pi.location));
        }
        if index >= pi.parameters.len() {
            return self.check(fuel - 1, ctx, &pi.value.expr, &Value::U);
        }
        let parameter = &pi.parameters[index];
        let ghost mid = self.metas.metas@;
        let domain = match self.check(fuel - 1, ctx, &parameter.type_rep.expr, &Value::U) {
            Ok(d) => d,
            Err(e) => {
                return Err(e);
            },
        };
        let ghost mid1 = self.metas.metas@;
        let domain_value = eval(&ctx.env, &domain);
        let name = match &parameter.binding {
            Pattern::Binding(d, _) => Some(*d),
            _ => None,
        };
        let binder = match name {
            Some(d) => d,
            None => Definition { id: 0, kind: DefinitionKind::Function, location: Location::CallSite, resolved: false },
        };
        let implicitness = if parameter.is_implicit {
            Implicitness::Implicit
        } else {
            Implicitness::Explicit
        };
        if ctx.lvl == u64::MAX {
            return Err(ElabError::TooDeep(pi.location));
        }
        let inner = ctx.bind(binder, domain_value);
        let rest = self.infer_pi(fuel - 1, &inner, pi, index + 1);
        proof {
            lemma_store_grows_trans(old(self).metas.metas@, mid1, self.metas.metas@);
        }
        match rest {
            Ok(codomain) => Ok(Term::Pi(name, implicitness, Rc::new(domain), Rc::new(codomain))),
            Err(e) => Err(e),
        }
    }

    /// Infers the type of `expr`: see `spec_infer`.
    pub fn infer(&mut self, fuel: u64, ctx: &Context, expr: &Expr) -> (r: Result<ElaboratedTerm, ElabError>)
        requires
            ctx.wf(),
        ensures
            (final(self).state(), r) == spec_infer(old(self).tables(), old(self).state(), fuel, *ctx, *expr),
            store_grows(old(self).metas.metas@, final(self).metas.metas@),
            final(self).globals == old(self).globals,
            final(self).primitives == old(self).primitives,
        decreases fuel, 5nat,
    {
        if fuel == 0 {
            return Err(ElabError::TooDeep(expr.location()));
        }
        match expr {
            Expr::Empty | Expr::Error(_) | Expr::Match(_) | Expr::Sigma(_) | Expr::Call(_) => Err(
                ElabError::UnsupportedTerm(UnsupportedTermError { location: expr.location() }),
            ),
            Expr::Upgrade(t) => self.infer(fuel - 1, ctx, &t.expr),
            Expr::Path(reference) => match ctx.lookup(reference.definition) {
                Some((l, ty)) => Ok(ElaboratedTerm(Term::Var(l), (*ty).copy())),
                None => match self.primitive_type(reference.definition) {
                    Some(b) => match create_from_type(b, reference.location) {
                        Ok(term) => Ok(ElaboratedTerm(term, Value::U)),
                        Err(e) => Err(ElabError::UnsupportedTerm(e)),
                    },
                    None => match self.global_type(reference.definition) {
                        Some(ty) => Ok(
                            ElaboratedTerm(
                                Term::Constructor(
                                    Constructor { kind: ConstructorKind::Reference(*reference), location: reference.location },
                                ),
                                (*ty).copy(),
                            ),
                        ),
                        None => Err(ElabError::UnboundReference(reference.location)),
                    },
                },
            },
            Expr::Literal(l, location) => {
                let (kind, type_kind) = literal_constructor(l);
                Ok(
                    ElaboratedTerm(
                        Term::Constructor(Constructor { kind, location: *location }),
                        Value::Constructor(Constructor { kind: type_kind, location: *location }),
                    ),
                )
            },
            Expr::Type(definition, location) => match create_from_type(*definition, *location) {
                Ok(term) => Ok(ElaboratedTerm(term, Value::U)),
                Err(e) => Err(ElabError::UnsupportedTerm(e)),
            },
            Expr::Ann(ann) => {
                let annotation = match self.check(fuel - 1, ctx, &ann.type_rep.expr, &Value::U) {
                    Ok(a) => a,
                    Err(e) => {
                        return Err(e);
                    },
                };
                let ghost mid = self.metas.metas@;
                let actual = eval(&ctx.env, &annotation);
                let checked = self.check(fuel - 1, ctx, &ann.value, &actual);
                proof {
                    lemma_store_grows_trans(old(self).metas.metas@, mid, self.metas.metas@);
                }
                match checked {
                    Ok(term) => Ok(ElaboratedTerm(term, actual)),
                    Err(e) => Err(e),
                }
            },
            Expr::Lam(lam) => self.infer_lam(fuel - 1, ctx, lam, 0),
            Expr::Pi(pi) => match self.infer_pi(fuel - 1, ctx, pi, 0) {
                Ok(term) => Ok(ElaboratedTerm(term, Value::U)),
                Err(e) => Err(e),
            },
            Expr::Hole(_) => {
                let m = self.metas.fresh(ctx.lvl);
                let t = self.metas.fresh(ctx.lvl);
                Ok(ElaboratedTerm(Term::InsertedMeta(m), Value::Flexible(t)))
            },
        }
    }
}

/// The identity function `\\x -> x`, inferred in a well-formed context with
/// room for one more binder, is an explicit lambda over its bound variable,
/// typed by an explicit pi over one fresh metavariable `?m` whose codomain,
/// closed over the context's environment, is `?m` again.
pub proof fn lemma_identity_infers(t: ElabTables, st: ElabState, fuel: u64, ctx: Context, lam: LamExpr, d: Definition)
    requires
        ctx.wf(),
        ctx.lvl < u64::MAX,
        fuel > 3,
        d.resolved,
        lam.parameters@.len() == 1,
        lam.parameters@[0] matches Pattern::Binding(b, _) && b == d,
        *lam.value matches Expr::Path(r) && r.definition == d,
        st.0.len() < u64::MAX,
    ensures
        ({
            let m = st.0.len() as u64;
            spec_infer(t, st, fuel, ctx, Expr::Lam(lam)) == (
                (st.0.push(MetaState::Unsolved(ctx.lvl)), st.1),
                Ok::<ElaboratedTerm, ElabError>(lam_outcome(d, m, Term::Var(ctx.lvl), Term::InsertedMeta(m), ctx.env)),
            )
        }),
{
    let m = st.0.len() as u64;
    let inner = spec_bind(ctx, d, Value::Flexible(m));
    let st1 = (st.0.push(MetaState::Unsolved(ctx.lvl)), st.1);
    let s = binders_view(inner.binders);
    assert(s == binders_view(ctx.binders).push((d, Value::Flexible(m))));
    assert(binder_level(s, d, inner.lvl as int) == Some(ctx.lvl as int));
    assert(spec_infer(t, st1, (fuel - 3) as u64, inner, *lam.value) == (
        st1,
        Ok::<ElaboratedTerm, ElabError>(ElaboratedTerm(Term::Var(ctx.lvl), Value::Flexible(m))),
    ));
    assert(spec_infer_lam(t, st1, (fuel - 2) as u64, inner, lam, 1) == spec_infer(
        t,
        st1,
        (fuel - 3) as u64,
        inner,
        *lam.value,
    ));
    assert(spec_quote((fuel - 1) as nat, inner.lvl, Value::Flexible(m)) == Some(Term::InsertedMeta(m)));
    assert(spec_infer_lam(t, st, (fuel - 1) as u64, ctx, lam, 0) == (
        st1,
        Ok::<ElaboratedTerm, ElabError>(lam_outcome(d, m, Term::Var(ctx.lvl), Term::InsertedMeta(m), ctx.env)),
    ));
}

/// Checking a value that is not a lambda against an implicit pi type wraps
/// it in an implicit lambda over the pi's binder, whose body is the value
/// checked, one binder deeper, against the codomain applied to the new
/// variable; it succeeds exactly when that check does.
pub proof fn lemma_implicit_pi_eta(t: ElabTables, st: ElabState, fuel: u64, ctx: Context, expr: Expr, pi: Pi)
    requires
        fuel > 1,
        ctx.lvl < u64::MAX,
        !(expr is Lam),
        pi.implicitness == Implicitness::Implicit,
    ensures
        ({
            let binder = match pi.name {
                Some(n) => n,
                None => anonymous_binder(),
            };
            let (st1, body) = spec_check(
                t,
                st,
                (fuel - 2) as u64,
                spec_bind(ctx, binder, *pi.domain),
                expr,
                spec_apply(pi.codomain, Value::Rigid(ctx.lvl)),
            );
            spec_check(t, st, fuel, ctx, expr, Value::Pi(pi)) == (st1, match body {
                Ok(b) => Ok::<Term, ElabError>(Term::Lam(binder, Implicitness::Implicit, Rc::new(b))),
                Err(e) => Err::<Term, ElabError>(e),
            })
        }),
{
    assert(spec_force(st.0, fuel, Value::Pi(pi)) == Value::Pi(pi));
}

/// Checks `expr` against `type_repr` in `ctx`.
pub fn thir_check(db: &mut Elaborator, ctx: &Context, expr: &Expr, type_repr: &Type) -> (r: Result<Term, ElabError>)
    requires
        ctx.wf(),
    ensures
        store_grows(old(db).metas.metas@, final(db).metas.metas@),
        (final(db).state(), r) == spec_check(old(db).tables(), old(db).state(), ELABORATION_DEPTH, *ctx, *expr, *type_repr),
        final(db).globals == old(db).globals,
        final(db).primitives == old(db).primitives,
{
    db.check(ELABORATION_DEPTH, ctx, expr, type_repr)
}

/// Infers the type of `expr` in `ctx`.
pub fn thir_infer(db: &mut Elaborator, ctx: &Context, expr: &Expr) -> (r: Result<ElaboratedTerm, ElabError>)
    requires
        ctx.wf(),
    ensures
        store_grows(old(db).metas.metas@, final(db).metas.metas@),
        (final(db).state(), r) == spec_infer(old(db).tables(), old(db).state(), ELABORATION_DEPTH, *ctx, *expr),
        final(db).globals == old(db).globals,
        final(db).primitives == old(db).primitives,
{
    db.infer(ELABORATION_DEPTH, ctx, expr)
}

} // verus!
