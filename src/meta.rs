//! Metavariables and unification. A metavariable starts unsolved, remembers
//! the binder depth it was created at, and is solved at most once.
use vstd::prelude::*;

use std::rc::Rc;

use crate::value::{Closure, Constructor, ConstructorKind, Env, Term, Value, spec_apply};

verus! {

#[derive(Debug)]
pub enum MetaState {
    /// Not solved yet; the binder depth at creation.
    Unsolved(u64),
    Solved(Rc<Value>),
}

/// Why two values could not be unified.
#[derive(Clone, Copy, Debug, PartialEq, Eq, Structural)]
pub enum UnifyError {
    Mismatch,
    /// The metavariable already has a solution.
    AlreadySolved(u64),
    /// The solution would mention the metavariable itself or a variable bound
    /// after it was created.
    Escape(u64),
    UnknownMeta(u64),
    /// The values are nested deeper than the unifier follows.
    TooDeep,
}

/// No occurrence of metavariable `m` in the term.
pub open spec fn term_avoids(t: Term, m: u64) -> bool
    decreases t,
{
    match t {
        Term::InsertedMeta(n) => n != m,
        Term::Lam(_, _, b) => term_avoids(*b, m),
        Term::Pi(_, _, a, b) => term_avoids(*a, m) && term_avoids(*b, m),
        _ => true,
    }
}

/// A value fit to solve metavariable `m` created at depth `lvl`: it does not
/// mention `m`, and every free variable in it was bound before depth `lvl`.
pub open spec fn value_scoped(v: Value, lvl: u64, m: u64) -> bool
    decreases v,
{
    match v {
        Value::U => true,
        Value::Constructor(_) => true,
        Value::Flexible(n) => n != m,
        Value::Rigid(l) => l < lvl,
        Value::Pi(p) => value_scoped(*p.domain, lvl, m) && closure_scoped(p.codomain, lvl, m),
        Value::Lam(_, _, c) => closure_scoped(c, lvl, m),
        Value::Location(_, inner) => value_scoped(*inner, lvl, m),
    }
}

pub open spec fn closure_scoped(c: Closure, lvl: u64, m: u64) -> bool
    decreases c,
{
    env_scoped(c.env, lvl, m) && term_avoids(*c.expr, m)
}

pub open spec fn env_scoped(e: Env, lvl: u64, m: u64) -> bool
    decreases e,
{
    match e {
        Env::Empty => true,
        Env::Extend(rest, v) => env_scoped(*rest, lvl, m) && value_scoped(*v, lvl, m),
    }
}

fn check_term_avoids(t: &Term, m: u64) -> (r: bool)
    ensures
        r == term_avoids(*t, m),
    decreases t,
{
    match t {
        Term::InsertedMeta(n) => *n != m,
        Term::Lam(_, _, b) => check_term_avoids(b, m),
        Term::Pi(_, _, a, b) => check_term_avoids(a, m) && check_term_avoids(b, m),
        _ => true,
    }
}

fn check_value_scoped(v: &Value, lvl: u64, m: u64) -> (r: bool)
    ensures
        r == value_scoped(*v, lvl, m),
    decreases v,
{
    match v {
        Value::U => true,
        Value::Constructor(_) => true,
        Value::Flexible(n) => *n != m,
        Value::Rigid(l) => *l < lvl,
        Value::Pi(p) => check_value_scoped(&p.domain, lvl, m) && check_closure_scoped(&p.codomain, lvl, m),
        Value::Lam(_, _, c) => check_closure_scoped(c, lvl, m),
        Value::Location(_, inner) => check_value_scoped(inner, lvl, m),
    }
}

fn check_closure_scoped(c: &Closure, lvl: u64, m: u64) -> (r: bool)
    ensures
        r == closure_scoped(*c, lvl, m),
    decreases c,
{
    check_env_scoped(&c.env, lvl, m) && check_term_avoids(&c.expr, m)
}

fn check_env_scoped(e: &Env, lvl: u64, m: u64) -> (r: bool)
    ensures
        r == env_scoped(*e, lvl, m),
    decreases e,
{
    match e {
        Env::Empty => true,
        Env::Extend(rest, v) => check_env_scoped(rest, lvl, m) && check_value_scoped(v, lvl, m),
    }
}

/// A value with solved metavariables and location wrappers at its head
/// followed, for at most `fuel` steps.
pub open spec fn spec_force(metas: Seq<MetaState>, fuel: u64, v: Value) -> Value
    decreases fuel,
{
    if fuel == 0 {
        v
    } else {
        match v {
            Value::Location(_, inner) => spec_force(metas, (fuel - 1) as u64, *inner),
            Value::Flexible(m) => if m < metas.len() && metas[m as int] is Solved {
                spec_force(metas, (fuel - 1) as u64, *metas[m as int]->Solved_0)
            } else {
                v
            },
            _ => v,
        }
    }
}

/// Solving `m` to `v`: refused when `m` is unknown, already solved, or `v`
/// is out of its scope.
pub open spec fn spec_solve(metas: Seq<MetaState>, m: u64, v: Value) -> (Seq<MetaState>, Result<(), UnifyError>) {
    if m >= metas.len() {
        (metas, Err(UnifyError::UnknownMeta(m)))
    } else if metas[m as int] is Solved {
        (metas, Err(UnifyError::AlreadySolved(m)))
    } else if !value_scoped(v, metas[m as int]->Unsolved_0, m) {
        (metas, Err(UnifyError::Escape(m)))
    } else {
        (metas.update(m as int, MetaState::Solved(Rc::new(v))), Ok(()))
    }
}

/// Unification at binder depth `lvl`: after forcing both sides, equal
/// universes, equal rigid variables and the same constructors unify; an
/// unsolved metavariable is solved to the other side; pi types unify
/// pointwise, domains first, then codomains under a fresh variable; lambdas
/// unify their bodies under a fresh variable; anything else is a mismatch.
pub open spec fn spec_unify(metas: Seq<MetaState>, fuel: u64, lvl: u64, a: Value, b: Value) -> (
    Seq<MetaState>,
    Result<(), UnifyError>,
)
    decreases fuel,
{
    if fuel == 0 {
        (metas, Err(UnifyError::TooDeep))
    } else {
        let a = spec_force(metas, fuel, a);
        let b = spec_force(metas, fuel, b);
        match (a, b) {
            (Value::U, Value::U) => (metas, Ok(())),
            (Value::Rigid(x), Value::Rigid(y)) => (metas, if x == y {
                Ok(())
            } else {
                Err(UnifyError::Mismatch)
            }),
            (Value::Flexible(x), Value::Flexible(y)) => if x == y {
                (metas, Ok(()))
            } else {
                spec_solve(metas, x, b)
            },
            (Value::Flexible(x), _) => spec_solve(metas, x, b),
            (_, Value::Flexible(y)) => spec_solve(metas, y, a),
            (Value::Constructor(c), Value::Constructor(d)) => (metas, if same_kind(c.kind, d.kind) {
                Ok(())
            } else {
                Err(UnifyError::Mismatch)
            }),
            (Value::Pi(p), Value::Pi(q)) => if p.implicitness != q.implicitness || lvl == u64::MAX {
                (metas, Err(UnifyError::Mismatch))
            } else {
                let first = spec_unify(metas, (fuel - 1) as u64, lvl, *p.domain, *q.domain);
                if first.1 is Err {
                    first
                } else {
                    spec_unify(
                        first.0,
                        (fuel - 1) as u64,
                        (lvl + 1) as u64,
                        spec_apply(p.codomain, Value::Rigid(lvl)),
                        spec_apply(q.codomain, Value::Rigid(lvl)),
                    )
                }
            },
            (Value::Lam(_, _, c), Value::Lam(_, _, d)) => if lvl == u64::MAX {
                (metas, Err(UnifyError::Mismatch))
            } else {
                spec_unify(
                    metas,
                    (fuel - 1) as u64,
                    (lvl + 1) as u64,
                    spec_apply(c, Value::Rigid(lvl)),
                    spec_apply(d, Value::Rigid(lvl)),
                )
            },
            _ => (metas, Err(UnifyError::Mismatch)),
        }
    }
}

/// The metavariables of one elaboration, by id.
pub struct MetaStore {
    pub metas: Vec<MetaState>,
}

/// Every metavariable of `before` is still there, and a solved one keeps its
/// solution.
pub open spec fn store_grows(before: Seq<MetaState>, after: Seq<MetaState>) -> bool {
    &&& before.len() <= after.len()
    &&& forall|i: int| 0 <= i < before.len() && (#[trigger] before[i]) is Solved ==> after[i] == before[i]
}

pub proof fn lemma_store_grows_trans(a: Seq<MetaState>, b: Seq<MetaState>, c: Seq<MetaState>)
    requires
        store_grows(a, b),
        store_grows(b, c),
    ensures
        store_grows(a, c),
{
    assert forall|i: int| 0 <= i < a.len() && (#[trigger] a[i]) is Solved implies c[i] == a[i] by {
        assert(b[i] == a[i]);
    }
}

impl MetaStore {
    pub fn new() -> (r: MetaStore)
        ensures
            r.metas@.len() == 0,
    {
        MetaStore { metas: Vec::new() }
    }

    /// A new unsolved metavariable created at binder depth `lvl`.
    pub fn fresh(&mut self, lvl: u64) -> (r: u64)
        ensures
            r == old(self).metas@.len(),
            final(self).metas@ == old(self).metas@.push(MetaState::Unsolved(lvl)),
    {
        let id = self.metas.len() as u64;
        self.metas.push(MetaState::Unsolved(lvl));
        id
    }

    /// The solution of `m`, if it has one.
    pub fn solution(&self, m: u64) -> (r: Option<Rc<Value>>)
        ensures
            r.is_some() == (m < self.metas@.len() && self.metas@[m as int] is Solved),
            r.is_some() ==> self.metas@[m as int] == MetaState::Solved(r.unwrap()),
    {
        if m < self.metas.len() as u64 {
            match &self.metas[m as usize] {
                MetaState::Solved(v) => Some(v.clone()),
                MetaState::Unsolved(_) => None,
            }
        } else {
            None
        }
    }

    /// Solves `m` to `v`. A metavariable is solved at most once: solving a
    /// solved one is refused and leaves the store as it was.
    pub fn solve(&mut self, m: u64, v: Value) -> (r: Result<(), UnifyError>)
        ensures
            m >= old(self).metas@.len() ==> r == Err::<(), UnifyError>(UnifyError::UnknownMeta(m)),
            m < old(self).metas@.len() && old(self).metas@[m as int] is Solved ==> r == Err::<(), UnifyError>(
                UnifyError::AlreadySolved(m),
            ),
            m < old(self).metas@.len() && old(self).metas@[m as int] is Unsolved ==> {
                let lvl = old(self).metas@[m as int]->Unsolved_0;
                &&& value_scoped(v, lvl, m) ==> r is Ok && final(self).metas@ == old(self).metas@.update(
                    m as int,
                    MetaState::Solved(Rc::new(v)),
                )
                &&& !value_scoped(v, lvl, m) ==> r == Err::<(), UnifyError>(UnifyError::Escape(m))
            },
            r is Err ==> final(self).metas@ == old(self).metas@,
            (final(self).metas@, r) == spec_solve(old(self).metas@, m, v),
            store_grows(old(self).metas@, final(self).metas@),
            final(self).metas@.len() == old(self).metas@.len(),
    {
        if m >= self.metas.len() as u64 {
            return Err(UnifyError::UnknownMeta(m));
        }
        let lvl = match &self.metas[m as usize] {
            MetaState::Solved(_) => {
                return Err(UnifyError::AlreadySolved(m));
            },
            MetaState::Unsolved(lvl) => *lvl,
        };
        if !check_value_scoped(&v, lvl, m) {
            return Err(UnifyError::Escape(m));
        }
        self.metas.set(m as usize, MetaState::Solved(Rc::new(v)));
        Ok(())
    }

    /// Follows solved metavariables and location wrappers at the head of a
    /// value, for at most `fuel` steps.
    pub fn force(&self, fuel: u64, v: &Value) -> (r: Value)
        ensures
            r == spec_force(self.metas@, fuel, *v),
            fuel > 0 && !(*v is Flexible) && !(*v is Location) ==> r == *v,
            fuel > 0 && (*v matches Value::Flexible(m) && (m >= self.metas@.len() || self.metas@[m as int] is Unsolved))
                ==> r == *v,
        decreases fuel,
    {
        if fuel == 0 {
            return v.copy();
        }
        match v {
            Value::Location(_, inner) => self.force(fuel - 1, inner),
            Value::Flexible(m) => match self.solution(*m) {
                Some(s) => self.force(fuel - 1, &s),
                None => v.copy(),
            },
            _ => v.copy(),
        }
    }

    /// Unifies two values at binder depth `lvl`, solving metavariables on
    /// the way. Solved metavariables keep their solutions.
    pub fn unify(&mut self, fuel: u64, lvl: u64, a: &Value, b: &Value) -> (r: Result<(), UnifyError>)
        ensures
            store_grows(old(self).metas@, final(self).metas@),
            (final(self).metas@, r) == spec_unify(old(self).metas@, fuel, lvl, *a, *b),
            fuel == 0 ==> r == Err::<(), UnifyError>(UnifyError::TooDeep),
            fuel > 0 && *a == Value::U && *b == Value::U ==> r is Ok,
            fuel > 0 ==> forall|x: u64, y: u64| *a == Value::Rigid(x) && *b == Value::Rigid(y) ==> (r is Ok <==> x == y),
            // An unsolved metavariable is solved to the other side, when that
            // is in its scope.
            fuel > 0 && !(*b is Flexible) && !(*b is Location) ==> (match *a {
                Value::Flexible(m) => m < old(self).metas@.len() && old(self).metas@[m as int] is Unsolved ==> {
                    let l = old(self).metas@[m as int]->Unsolved_0;
                    value_scoped(*b, l, m) ==> r is Ok && final(self).metas@ == old(self).metas@.update(
                        m as int,
                        MetaState::Solved(Rc::new(*b)),
                    )
                },
                _ => true,
            }),
            fuel > 0 && !(*a is Flexible) && !(*a is Location) ==> (match *b {
                Value::Flexible(m) => m < old(self).metas@.len() && old(self).metas@[m as int] is Unsolved ==> {
                    let l = old(self).metas@[m as int]->Unsolved_0;
                    value_scoped(*a, l, m) ==> r is Ok && final(self).metas@ == old(self).metas@.update(
                        m as int,
                        MetaState::Solved(Rc::new(*a)),
                    )
                },
                _ => true,
            }),
            // Constructors unify exactly when they are the same.
            fuel > 0 ==> (match (*a, *b) {
                (Value::Constructor(c), Value::Constructor(d)) => (if same_kind(c.kind, d.kind) {
                    r is Ok
                } else {
                    r == Err::<(), UnifyError>(UnifyError::Mismatch)
                }) && final(self).metas@ == old(self).metas@,
                (Value::U, Value::U) => r is Ok && final(self).metas@ == old(self).metas@,
                _ => true,
            }),
        decreases fuel,
    {
        if fuel == 0 {
            return Err(UnifyError::TooDeep);
        }
        let a = self.force(fuel, a);
        let b = self.force(fuel, b);
        match (&a, &b) {
            (Value::U, Value::U) => Ok(()),
            (Value::Rigid(x), Value::Rigid(y)) => if *x == *y {
                Ok(())
            } else {
                Err(UnifyError::Mismatch)
            },
            (Value::Flexible(x), Value::Flexible(y)) => if *x == *y {
                Ok(())
            } else {
                self.solve(*x, b.copy())
            },
            (Value::Flexible(x), _) => self.solve(*x, b.copy()),
            (_, Value::Flexible(y)) => self.solve(*y, a.copy()),
            (Value::Constructor(c), Value::Constructor(d)) => if same_constructor(c, d) {
                Ok(())
            } else {
                Err(UnifyError::Mismatch)
            },
            (Value::Pi(p), Value::Pi(q)) => {
                if p.implicitness != q.implicitness || lvl == u64::MAX {
                    return Err(UnifyError::Mismatch);
                }
                let r1 = self.unify(fuel - 1, lvl, &p.domain, &q.domain);
                if r1.is_err() {
                    return r1;
                }
                let x = p.codomain.apply(Value::Rigid(lvl));
                let y = q.codomain.apply(Value::Rigid(lvl));
                self.unify(fuel - 1, lvl + 1, &x, &y)
            },
            (Value::Lam(_, _, c), Value::Lam(_, _, d)) => {
                if lvl == u64::MAX {
                    return Err(UnifyError::Mismatch);
                }
                let x = c.apply(Value::Rigid(lvl));
                let y = d.apply(Value::Rigid(lvl));
                self.unify(fuel - 1, lvl + 1, &x, &y)
            },
            _ => Err(UnifyError::Mismatch),
        }
    }
}

/// Constructor kinds that denote the same constructor; strings by their
/// characters.
pub open spec fn same_kind(a: ConstructorKind, b: ConstructorKind) -> bool {
    match (a, b) {
        (ConstructorKind::String(x), ConstructorKind::String(y)) => x@ == y@,
        _ => a == b,
    }
}

/// Whether two constructors are the same, regardless of where they were
/// written.
pub fn same_constructor(c: &Constructor, d: &Constructor) -> (r: bool)
    ensures
        r == same_kind(c.kind, d.kind),
{
    match (&c.kind, &d.kind) {
        (ConstructorKind::UnitType, ConstructorKind::UnitType) => true,
        (ConstructorKind::StringType, ConstructorKind::StringType) => true,
        (ConstructorKind::BooleanType, ConstructorKind::BooleanType) => true,
        (ConstructorKind::NatType, ConstructorKind::NatType) => true,
        (ConstructorKind::IntType(s1, w1), ConstructorKind::IntType(s2, w2)) => *s1 == *s2 && *w1 == *w2,
        (ConstructorKind::Unit, ConstructorKind::Unit) => true,
        (ConstructorKind::True, ConstructorKind::True) => true,
        (ConstructorKind::False, ConstructorKind::False) => true,
        (ConstructorKind::Int(x), ConstructorKind::Int(y)) => *x == *y,
        (ConstructorKind::String(x), ConstructorKind::String(y)) => *x == *y,
        (ConstructorKind::Reference(x), ConstructorKind::Reference(y)) => *x == *y,
        _ => false,
    }
}

} // verus!
