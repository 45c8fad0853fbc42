//! The core calculus: checked terms, and the semantic values that terms
//! evaluate to. Bound variables are De Bruijn levels, counted from the
//! outermost binder, so a term means the same under any deeper context.
use vstd::prelude::*;

use std::rc::Rc;

use crate::hir::{Definition, Location, Reference};

verus! {

#[derive(Clone, Copy, Debug, PartialEq, Eq, Structural)]
pub enum Implicitness {
    Explicit,
    Implicit,
}

#[derive(Debug)]
pub enum ConstructorKind {
    UnitType,
    StringType,
    BooleanType,
    NatType,
    /// Signed or not, and the width in bits.
    IntType(bool, u8),
    Unit,
    True,
    False,
    Int(i64),
    String(String),
    Reference(Reference),
}

#[derive(Debug)]
pub struct Constructor {
    pub kind: ConstructorKind,
    pub location: Location,
}

/// A checked term.
#[derive(Debug)]
pub enum Term {
    /// The universe of types.
    U,
    Constructor(Constructor),
    /// A bound variable, by its De Bruijn level.
    Var(u64),
    Lam(Definition, Implicitness, Rc<Term>),
    /// A dependent function type; the codomain is under one more binder.
    Pi(Option<Definition>, Implicitness, Rc<Term>, Rc<Term>),
    /// A metavariable left for unification to solve.
    InsertedMeta(u64),
}

/// A value in normal form up to closures.
#[derive(Debug)]
pub enum Value {
    U,
    Constructor(Constructor),
    /// A stuck, not yet solved metavariable.
    Flexible(u64),
    /// A stuck free variable, by its De Bruijn level.
    Rigid(u64),
    Pi(Pi),
    Lam(Definition, Implicitness, Closure),
    Location(Location, Rc<Value>),
}

/// A term under one binder together with the environment it was formed in.
/// Its body is only evaluated when the closure is applied.
#[derive(Debug)]
pub struct Closure {
    pub env: Env,
    pub expr: Rc<Term>,
}

/// Dependent function type as a value.
#[derive(Debug)]
pub struct Pi {
    pub name: Option<Definition>,
    pub implicitness: Implicitness,
    pub domain: Rc<Value>,
    pub codomain: Closure,
}

/// A persistent list of values, one per bound variable; the latest binding
/// is on top and extending shares the rest.
#[derive(Debug)]
pub enum Env {
    Empty,
    Extend(Rc<Env>, Rc<Value>),
}

pub type Type = Value;

/// The values of an environment, outermost first.
pub open spec fn env_view(e: Env) -> Seq<Value>
    decreases e,
{
    match e {
        Env::Empty => Seq::empty(),
        Env::Extend(rest, v) => env_view(*rest).push(*v),
    }
}

/// What a term evaluates to. Binders are not entered: a lambda or a pi
/// codomain becomes a closure over the current environment.
pub open spec fn spec_eval(env: Env, t: Term) -> Value
    decreases t,
{
    match t {
        Term::U => Value::U,
        Term::Constructor(c) => Value::Constructor(c),
        Term::Var(l) => if l < env_view(env).len() {
            env_view(env)[l as int]
        } else {
            Value::Rigid(l)
        },
        Term::Lam(d, i, body) => Value::Lam(d, i, Closure { env, expr: body }),
        Term::Pi(name, i, domain, codomain) => Value::Pi(
            Pi {
                name,
                implicitness: i,
                domain: Rc::new(spec_eval(env, *domain)),
                codomain: Closure { env, expr: codomain },
            },
        ),
        Term::InsertedMeta(m) => Value::Flexible(m),
    }
}

/// Applying a closure evaluates its body with the argument bound next.
pub open spec fn spec_apply(c: Closure, v: Value) -> Value {
    spec_eval(Env::Extend(Rc::new(c.env), Rc::new(v)), *c.expr)
}

/// Reading a value back as a term at binder depth `lvl`, entering at most
/// `fuel` nested values; `None` when that is not enough.
pub open spec fn spec_quote(fuel: nat, lvl: u64, v: Value) -> Option<Term>
    decreases fuel,
{
    if fuel == 0 {
        None
    } else {
        match v {
            Value::U => Some(Term::U),
            Value::Constructor(c) => Some(Term::Constructor(c)),
            Value::Flexible(m) => Some(Term::InsertedMeta(m)),
            Value::Rigid(l) => Some(Term::Var(l)),
            Value::Location(_, inner) => spec_quote((fuel - 1) as nat, lvl, *inner),
            Value::Pi(p) => if lvl == u64::MAX {
                None
            } else {
                match (
                    spec_quote((fuel - 1) as nat, lvl, *p.domain),
                    spec_quote((fuel - 1) as nat, (lvl + 1) as u64, spec_apply(p.codomain, Value::Rigid(lvl))),
                ) {
                    (Some(a), Some(b)) => Some(Term::Pi(p.name, p.implicitness, Rc::new(a), Rc::new(b))),
                    _ => None,
                }
            },
            Value::Lam(d, i, c) => if lvl == u64::MAX {
                None
            } else {
                match spec_quote((fuel - 1) as nat, (lvl + 1) as u64, spec_apply(c, Value::Rigid(lvl))) {
                    Some(b) => Some(Term::Lam(d, i, Rc::new(b))),
                    None => None,
                }
            },
        }
    }
}

/// A value without its location wrappers, and the innermost location among
/// them.
pub open spec fn spec_force(v: Value) -> (Option<Location>, Value)
    decreases v,
{
    match v {
        Value::Location(l, inner) => match spec_force(*inner) {
            (Some(x), value) => (Some(x), value),
            (None, value) => (Some(l), value),
        },
        _ => (None, v),
    }
}

impl ConstructorKind {
    pub fn copy(&self) -> (r: ConstructorKind)
        ensures
            r == *self,
    {
        match self {
            ConstructorKind::UnitType => ConstructorKind::UnitType,
            ConstructorKind::StringType => ConstructorKind::StringType,
            ConstructorKind::BooleanType => ConstructorKind::BooleanType,
            ConstructorKind::NatType => ConstructorKind::NatType,
            ConstructorKind::IntType(s, w) => ConstructorKind::IntType(*s, *w),
            ConstructorKind::Unit => ConstructorKind::Unit,
            ConstructorKind::True => ConstructorKind::True,
            ConstructorKind::False => ConstructorKind::False,
            ConstructorKind::Int(n) => ConstructorKind::Int(*n),
            ConstructorKind::String(s) => ConstructorKind::String(s.clone()),
            ConstructorKind::Reference(r) => ConstructorKind::Reference(*r),
        }
    }
}

impl Constructor {
    pub fn copy(&self) -> (r: Constructor)
        ensures
            r == *self,
    {
        Constructor { kind: self.kind.copy(), location: self.location }
    }
}

impl Env {
    pub fn copy(&self) -> (r: Env)
        ensures
            r == *self,
    {
        match self {
            Env::Empty => Env::Empty,
            Env::Extend(rest, v) => Env::Extend(rest.clone(), v.clone()),
        }
    }

    /// The environment with `v` bound as the next variable.
    pub fn push(&self, v: Value) -> (r: Env)
        ensures
            r == Env::Extend(Rc::new(*self), Rc::new(v)),
            env_view(r) == env_view(*self).push(v),
    {
        Env::Extend(Rc::new(self.copy()), Rc::new(v))
    }

    /// The value of the variable at level `lvl`, or, when there is none, the
    /// number of values held.
    fn seek(&self, lvl: u64) -> (r: Result<Rc<Value>, u64>)
        ensures
            match r {
                Ok(v) => lvl < env_view(*self).len() && *v == env_view(*self)[lvl as int],
                Err(n) => n == env_view(*self).len() && n <= lvl,
            },
        decreases self,
    {
        match self {
            Env::Empty => Err(0),
            Env::Extend(rest, v) => match rest.seek(lvl) {
                Ok(found) => Ok(found),
                Err(n) => if n == lvl {
                    Ok(v.clone())
                } else {
                    Err(n + 1)
                },
            },
        }
    }

    /// The value of the variable at level `lvl`.
    pub fn lookup(&self, lvl: u64) -> (r: Option<Rc<Value>>)
        ensures
            r.is_some() == (lvl < env_view(*self).len()),
            r.is_some() ==> *r.unwrap() == env_view(*self)[lvl as int],
    {
        match self.seek(lvl) {
            Ok(v) => Some(v),
            Err(_) => None,
        }
    }
}

impl Closure {
    pub fn copy(&self) -> (r: Closure)
        ensures
            r == *self,
    {
        Closure { env: self.env.copy(), expr: self.expr.clone() }
    }

    /// Applies the closure: binds `value` as the next variable of the
    /// captured environment and evaluates the body there.
    pub fn apply(&self, value: Value) -> (r: Value)
        ensures
            r == spec_apply(*self, value),
    {
        let env = self.env.push(value);
        eval(&env, &self.expr)
    }
}

impl Value {
    pub fn copy(&self) -> (r: Value)
        ensures
            r == *self,
    {
        match self {
            Value::U => Value::U,
            Value::Constructor(c) => Value::Constructor(c.copy()),
            Value::Flexible(m) => Value::Flexible(*m),
            Value::Rigid(l) => Value::Rigid(*l),
            Value::Pi(p) => Value::Pi(
                Pi {
                    name: p.name,
                    implicitness: p.implicitness,
                    domain: p.domain.clone(),
                    codomain: p.codomain.copy(),
                },
            ),
            Value::Lam(d, i, c) => Value::Lam(*d, *i, c.copy()),
            Value::Location(l, v) => Value::Location(*l, v.clone()),
        }
    }

    /// The free variable at level `lvl`.
    pub fn new_var(lvl: u64, _reference: Option<Reference>) -> (r: Value)
        ensures
            r == Value::Rigid(lvl),
    {
        Value::Rigid(lvl)
    }

    pub fn located(location: Location, value: Value) -> (r: Value)
        ensures
            r == Value::Location(location, Rc::new(value)),
    {
        Value::Location(location, Rc::new(value))
    }

    /// Strips location wrappers, returning the innermost location met, if
    /// any, and the value beneath.
    pub fn force(self) -> (r: (Option<Location>, Value))
        ensures
            r == spec_force(self),
        decreases self,
    {
        match self {
            Value::Location(l, v) => {
                let inner = (*v).copy();
                let (found, value) = inner.force();
                match found {
                    Some(x) => (Some(x), value),
                    None => (Some(l), value),
                }
            },
            other => (None, other),
        }
    }
}

impl Term {
    pub fn copy(&self) -> (r: Term)
        ensures
            r == *self,
    {
        match self {
            Term::U => Term::U,
            Term::Constructor(c) => Term::Constructor(c.copy()),
            Term::Var(l) => Term::Var(*l),
            Term::Lam(d, i, b) => Term::Lam(*d, *i, b.clone()),
            Term::Pi(n, i, a, b) => Term::Pi(*n, *i, a.clone(), b.clone()),
            Term::InsertedMeta(m) => Term::InsertedMeta(*m),
        }
    }
}

/// Evaluates a term in an environment.
pub fn eval(env: &Env, t: &Term) -> (r: Value)
    ensures
        r == spec_eval(*env, *t),
    decreases t,
{
    match t {
        Term::U => Value::U,
        Term::Constructor(c) => Value::Constructor(c.copy()),
        Term::Var(l) => match env.lookup(*l) {
            Some(v) => (*v).copy(),
            None => Value::Rigid(*l),
        },
        Term::Lam(d, i, body) => Value::Lam(*d, *i, Closure { env: env.copy(), expr: body.clone() }),
        Term::Pi(name, i, domain, codomain) => {
            let d = eval(env, domain);
            Value::Pi(
                Pi {
                    name: *name,
                    implicitness: *i,
                    domain: Rc::new(d),
                    codomain: Closure { env: env.copy(), expr: codomain.clone() },
                },
            )
        },
        Term::InsertedMeta(m) => Value::Flexible(*m),
    }
}

/// Reads a value back as a term at binder depth `lvl`.
pub fn quote(fuel: u64, lvl: u64, v: &Value) -> (r: Option<Term>)
    ensures
        r == spec_quote(fuel as nat, lvl, *v),
    decreases fuel,
{
    if fuel == 0 {
        return None;
    }
    match v {
        Value::U => Some(Term::U),
        Value::Constructor(c) => Some(Term::Constructor(c.copy())),
        Value::Flexible(m) => Some(Term::InsertedMeta(*m)),
        Value::Rigid(l) => Some(Term::Var(*l)),
        Value::Location(_, inner) => quote(fuel - 1, lvl, inner),
        Value::Pi(p) => {
            if lvl == u64::MAX {
                return None;
            }
            let a = quote(fuel - 1, lvl, &p.domain);
            let applied = p.codomain.apply(Value::Rigid(lvl));
            let b = quote(fuel - 1, lvl + 1, &applied);
            match (a, b) {
                (Some(a), Some(b)) => Some(Term::Pi(p.name, p.implicitness, Rc::new(a), Rc::new(b))),
                _ => None,
            }
        },
        Value::Lam(d, i, c) => {
            if lvl == u64::MAX {
                return None;
            }
            let applied = c.apply(Value::Rigid(lvl));
            match quote(fuel - 1, lvl + 1, &applied) {
                Some(b) => Some(Term::Lam(*d, *i, Rc::new(b))),
                None => None,
            }
        },
    }
}

/// Evaluation does not enter binders: a pi type evaluates to its domain's
/// value and a closure holding the codomain term exactly as written, over the
/// environment of the evaluation. Only applying that closure evaluates the
/// codomain, with the argument bound as the next variable.
pub proof fn lemma_eval_pi_is_lazy(
    env: Env,
    name: Option<Definition>,
    icit: Implicitness,
    domain: Rc<Term>,
    codomain: Rc<Term>,
    arg: Value,
)
    ensures
        spec_eval(env, Term::Pi(name, icit, domain, codomain)) == Value::Pi(
            Pi {
                name,
                implicitness: icit,
                domain: Rc::new(spec_eval(env, *domain)),
                codomain: Closure { env, expr: codomain },
            },
        ),
        spec_apply(Closure { env, expr: codomain }, arg) == spec_eval(
            Env::Extend(Rc::new(env), Rc::new(arg)),
            *codomain,
        ),
{
}

} // verus!
