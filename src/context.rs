//! Typing contexts: a persistent list of bound definitions with their types,
//! the environment of their values, and the binder depth. Extending a
//! context makes a new one and shares the old.
use vstd::prelude::*;

use std::rc::Rc;

use crate::hir::Definition;
use crate::value::{Env, Type, Value, env_view};

verus! {

#[derive(Debug)]
pub enum Binders {
    Empty,
    Extend(Rc<Binders>, Definition, Rc<Value>),
}

/// The bound definitions and their types, outermost first.
pub open spec fn binders_view(b: Binders) -> Seq<(Definition, Value)>
    decreases b,
{
    match b {
        Binders::Empty => Seq::empty(),
        Binders::Extend(rest, d, t) => binders_view(*rest).push((d, *t)),
    }
}

/// Whether a binder stands for the definition: an unresolved placeholder
/// stands for nothing.
pub open spec fn binds(entry: Definition, d: Definition) -> bool {
    entry.resolved && d.resolved && entry.id == d.id
}

/// The level of the innermost binder of `d` among the first `n` binders.
pub open spec fn binder_level(s: Seq<(Definition, Value)>, d: Definition, n: int) -> Option<int>
    decreases n,
{
    if n <= 0 {
        None
    } else if binds(s[n - 1].0, d) {
        Some(n - 1)
    } else {
        binder_level(s, d, n - 1)
    }
}

/// The context with `d` bound next, of type `ty`, standing for the free
/// variable of its level.
pub open spec fn spec_bind(c: Context, d: Definition, ty: Type) -> Context {
    Context {
        lvl: (c.lvl + 1) as u64,
        env: Env::Extend(Rc::new(c.env), Rc::new(Value::Rigid(c.lvl))),
        binders: Binders::Extend(Rc::new(c.binders), d, Rc::new(ty)),
    }
}

#[derive(Debug)]
pub struct Context {
    pub lvl: u64,
    pub env: Env,
    pub binders: Binders,
}

impl Context {
    /// Each binder has its type and, in the environment, the free variable
    /// of its level.
    pub open spec fn wf(&self) -> bool {
        &&& env_view(self.env).len() == self.lvl
        &&& binders_view(self.binders).len() == self.lvl
        &&& forall|i: int| 0 <= i < self.lvl ==> #[trigger] env_view(self.env)[i] == Value::Rigid(i as u64)
    }

    pub fn new() -> (r: Context)
        ensures
            r.wf(),
            r.lvl == 0,
    {
        Context { lvl: 0, env: Env::Empty, binders: Binders::Empty }
    }

    /// The context with `d` bound next, of type `ty`.
    pub fn bind(&self, d: Definition, ty: Type) -> (r: Context)
        requires
            self.wf(),
            self.lvl < u64::MAX,
        ensures
            r.wf(),
            r.lvl == self.lvl + 1,
            env_view(r.env) == env_view(self.env).push(Value::Rigid(self.lvl)),
            binders_view(r.binders) == binders_view(self.binders).push((d, ty)),
            r == spec_bind(*self, d, ty),
    {
        let env = self.env.push(Value::Rigid(self.lvl));
        let binders = Binders::Extend(Rc::new(self.binders.copy()), d, Rc::new(ty));
        let r = Context { lvl: self.lvl + 1, env, binders };
        proof {
            assert forall|i: int| 0 <= i < r.lvl implies #[trigger] env_view(r.env)[i] == Value::Rigid(i as u64) by {
                if i < self.lvl {
                    assert(env_view(self.env)[i] == Value::Rigid(i as u64));
                }
            }
        }
        r
    }

    /// The level and type of the innermost binder of `d`.
    pub fn lookup(&self, d: Definition) -> (r: Option<(u64, Rc<Value>)>)
        requires
            self.wf(),
        ensures
            match binder_level(binders_view(self.binders), d, self.lvl as int) {
                None => r.is_none(),
                Some(l) => r.is_some() && r.unwrap().0 == l && *r.unwrap().1 == binders_view(
                    self.binders,
                )[l].1,
            },
    {
        self.binders.find(self.lvl, d)
    }
}

impl Binders {
    pub fn copy(&self) -> (r: Binders)
        ensures
            r == *self,
    {
        match self {
            Binders::Empty => Binders::Empty,
            Binders::Extend(rest, d, t) => Binders::Extend(rest.clone(), *d, t.clone()),
        }
    }

    fn find(&self, n: u64, d: Definition) -> (r: Option<(u64, Rc<Value>)>)
        requires
            binders_view(*self).len() == n,
        ensures
            match binder_level(binders_view(*self), d, n as int) {
                None => r.is_none(),
                Some(l) => r.is_some() && r.unwrap().0 == l && *r.unwrap().1 == binders_view(*self)[l].1,
            },
        decreases self,
    {
        match self {
            Binders::Empty => {
                assert(binders_view(*self) =~= Seq::<(Definition, Value)>::empty());
                assert(n == 0);
                assert(binder_level(binders_view(*self), d, n as int) is None);
                None
            },
            Binders::Extend(rest, entry, ty) => {
                let ghost s = binders_view(*self);
                assert(s.drop_last() =~= binders_view(**rest));
                if entry.resolved && d.resolved && entry.id == d.id {
                    Some((n - 1, ty.clone()))
                } else {
                    let r = rest.find(n - 1, d);
                    proof {
                        assert(s.drop_last() =~= binders_view(*self).drop_last());
                        lemma_binder_level_prefix(s.drop_last(), s, d, (n - 1) as int);
                        assert(!binds(s[n - 1].0, d));
                        assert(binder_level(s, d, n as int) == binder_level(s, d, n - 1));
                    }
                    r
                }
            },
        }
    }
}

proof fn lemma_binder_level_prefix(p: Seq<(Definition, Value)>, s: Seq<(Definition, Value)>, d: Definition, n: int)
    requires
        0 <= n <= p.len(),
        p.len() <= s.len(),
        forall|i: int| 0 <= i < p.len() ==> p[i] == s[i],
    ensures
        binder_level(p, d, n) == binder_level(s, d, n),
        binder_level(p, d, n) matches Some(l) ==> 0 <= l < n,
    decreases n,
{
    if n > 0 {
        lemma_binder_level_prefix(p, s, d, n - 1);
    }
}

} // verus!
