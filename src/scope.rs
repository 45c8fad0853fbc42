//! Lexical scopes: a stack of frames, innermost last, each owning the names
//! bound in it.
use vstd::prelude::*;

use crate::hir::{Definition, Location, Reference};

verus! {

#[derive(Clone, Copy, Debug, PartialEq, Eq, Structural)]
pub enum ScopeKind {
    Root,
    Lambda,
    Pi,
    Sigma,
    DoNotation,
}

/// A name bound in a frame.
#[derive(Clone, Debug, PartialEq, Eq)]
pub struct Binding {
    pub name: String,
    pub definition: Definition,
}

/// One lexical frame: the names bound in it, in binding order, and the free
/// variables registered in it.
#[derive(Clone, Debug, PartialEq, Eq)]
pub struct ScopeFrame {
    pub kind: ScopeKind,
    pub bindings: Vec<Binding>,
    pub free_variables: Vec<Binding>,
}

/// The active scope chain. The first frame is the root; the last is the
/// current one.
#[derive(Clone, Debug, PartialEq, Eq)]
pub struct Scope {
    pub frames: Vec<ScopeFrame>,
}

/// A frame of the given kind that binds nothing yet.
pub open spec fn is_fresh_frame(f: ScopeFrame, kind: ScopeKind) -> bool {
    f.kind == kind && f.bindings@.len() == 0 && f.free_variables@.len() == 0
}

pub open spec fn spec_fork(s: Seq<ScopeFrame>, frame: ScopeFrame) -> Seq<ScopeFrame> {
    s.push(frame)
}

pub open spec fn spec_pop(s: Seq<ScopeFrame>) -> Seq<ScopeFrame> {
    s.drop_last()
}

/// A step on the chain: `Some(frame)` forks that frame, `None` pops the
/// current one.
pub open spec fn spec_step(s: Seq<ScopeFrame>, op: Option<ScopeFrame>) -> Seq<ScopeFrame> {
    match op {
        Some(frame) => spec_fork(s, frame),
        None => spec_pop(s),
    }
}

pub open spec fn run_ops(s: Seq<ScopeFrame>, ops: Seq<Option<ScopeFrame>>) -> Seq<ScopeFrame>
    decreases ops.len(),
{
    if ops.len() == 0 {
        s
    } else {
        spec_step(run_ops(s, ops.drop_last()), ops.last())
    }
}

/// Forks minus pops.
pub open spec fn depth_of(ops: Seq<Option<ScopeFrame>>) -> int
    decreases ops.len(),
{
    if ops.len() == 0 {
        0
    } else {
        depth_of(ops.drop_last()) + if ops.last() is Some { 1int } else { -1int }
    }
}

/// No prefix pops more frames than it forked.
pub open spec fn never_below(ops: Seq<Option<ScopeFrame>>) -> bool {
    forall|i: int| 0 <= i <= ops.len() ==> #[trigger] depth_of(ops.take(i)) >= 0
}

/// The innermost binding of `name`, searching frames from the current one
/// outwards and, within a frame, the latest binding first.
pub open spec fn lookup_in_frame(bs: Seq<Binding>, name: Seq<char>) -> Option<Definition>
    decreases bs.len(),
{
    if bs.len() == 0 {
        None
    } else if bs.last().name@ == name {
        Some(bs.last().definition)
    } else {
        lookup_in_frame(bs.drop_last(), name)
    }
}

pub open spec fn lookup_local(frames: Seq<ScopeFrame>, name: Seq<char>) -> Option<Definition>
    decreases frames.len(),
{
    if frames.len() == 0 {
        None
    } else {
        match lookup_in_frame(frames.last().bindings@, name) {
            Some(d) => Some(d),
            None => lookup_local(frames.drop_last(), name),
        }
    }
}

impl Scope {
    pub open spec fn wf(&self) -> bool {
        self.frames@.len() >= 1
    }

    /// The innermost frame.
    pub open spec fn current(&self) -> ScopeFrame {
        self.frames@.last()
    }

    pub fn new() -> (r: Scope)
        ensures
            r.wf(),
            r.frames@.len() == 1,
            is_fresh_frame(r.frames@[0], ScopeKind::Root),
    {
        let mut frames = Vec::new();
        frames.push(ScopeFrame { kind: ScopeKind::Root, bindings: Vec::new(), free_variables: Vec::new() });
        Scope { frames }
    }

    /// Opens a child frame of the given kind, linked under the current one.
    pub fn fork(&mut self, kind: ScopeKind)
        ensures
            final(self).frames@ == spec_fork(old(self).frames@, final(self).current()),
            is_fresh_frame(final(self).current(), kind),
    {
        self.frames.push(ScopeFrame { kind, bindings: Vec::new(), free_variables: Vec::new() });
    }

    /// Detaches the current frame and returns it; its parent becomes current.
    pub fn pop(&mut self) -> (r: ScopeFrame)
        requires
            old(self).frames@.len() >= 2,
        ensures
            r == old(self).frames@.last(),
            final(self).frames@ == spec_pop(old(self).frames@),
            final(self).wf(),
    {
        self.frames.pop().unwrap()
    }

    /// Binds `name` to `definition` in the current frame.
    pub fn define(&mut self, name: String, definition: Definition)
        requires
            old(self).wf(),
        ensures
            final(self).wf(),
            final(self).frames@.len() == old(self).frames@.len(),
            final(self).frames@.drop_last() == old(self).frames@.drop_last(),
            final(self).current().kind == old(self).current().kind,
            final(self).current().free_variables == old(self).current().free_variables,
            final(self).current().bindings@ == old(self).current().bindings@.push(
                Binding { name, definition },
            ),
    {
        let mut frame = self.frames.pop().unwrap();
        frame.bindings.push(Binding { name, definition });
        self.frames.push(frame);
        proof {
            assert(self.frames@.drop_last() =~= old(self).frames@.drop_last());
        }
    }

    /// The innermost local binding of `name`, if any.
    pub fn lookup(&self, name: &String) -> (r: Option<Definition>)
        ensures
            r == lookup_local(self.frames@, name@),
    {
        let mut i: usize = self.frames.len();
        proof {
            assert(self.frames@.take(i as int) =~= self.frames@);
        }
        while i > 0
            invariant
                i <= self.frames@.len(),
                lookup_local(self.frames@, name@) == lookup_local(self.frames@.take(i as int), name@),
            decreases i,
        {
            let frame = &self.frames[i - 1];
            let mut j: usize = frame.bindings.len();
            proof {
                assert(frame.bindings@.take(j as int) =~= frame.bindings@);
                assert(self.frames@.take(i as int).last() == self.frames@[i - 1]);
            }
            while j > 0
                invariant
                    0 < i <= self.frames@.len(),
                    *frame == self.frames@[i - 1],
                    lookup_local(self.frames@, name@) == lookup_local(self.frames@.take(i as int), name@),
                    j <= frame.bindings@.len(),
                    lookup_in_frame(frame.bindings@, name@) == lookup_in_frame(
                        frame.bindings@.take(j as int),
                        name@,
                    ),
                decreases j,
            {
                let b = &frame.bindings[j - 1];
                proof {
                    assert(frame.bindings@.take(j as int).drop_last() =~= frame.bindings@.take(j - 1));
                }
                if b.name == *name {
                    return Some(b.definition);
                }
                j = j - 1;
            }
            proof {
                assert(frame.bindings@.take(0) =~= Seq::<Binding>::empty());
                assert(self.frames@.take(i as int).drop_last() =~= self.frames@.take(i - 1));
            }
            i = i - 1;
        }
        proof {
            assert(self.frames@.take(0) =~= Seq::<ScopeFrame>::empty());
        }
        None
    }

    /// Whether some frame of the chain is a do-notation frame.
    pub fn is_do_notation_scope(&self) -> (r: bool)
        ensures
            r == exists|i: int| 0 <= i < self.frames@.len() && #[trigger] self.frames@[i].kind == ScopeKind::DoNotation,
    {
        let mut i: usize = 0;
        while i < self.frames.len()
            invariant
                i <= self.frames@.len(),
                forall|k: int| 0 <= k < i ==> #[trigger] self.frames@[k].kind != ScopeKind::DoNotation,
            decreases self.frames@.len() - i,
        {
            if self.frames[i].kind == ScopeKind::DoNotation {
                return true;
            }
            i = i + 1;
        }
        false
    }

    /// Records a use of `definition` at `location`.
    pub fn using(&self, definition: Definition, location: Location, is_type_level: bool) -> (r: Reference)
        ensures
            r == (Reference { definition, is_type_level, location }),
    {
        Reference { definition, is_type_level, location }
    }

    /// Registers a not-yet-bound symbol in the current frame and returns a
    /// type-level reference to it.
    pub fn insert_free_variable(&mut self, name: String, definition: Definition, location: Location) -> (r: Reference)
        requires
            old(self).wf(),
        ensures
            final(self).wf(),
            final(self).frames@.len() == old(self).frames@.len(),
            final(self).frames@.drop_last() == old(self).frames@.drop_last(),
            final(self).current().kind == old(self).current().kind,
            final(self).current().bindings == old(self).current().bindings,
            final(self).current().free_variables@ == old(self).current().free_variables@.push(
                Binding { name, definition },
            ),
            r == (Reference { definition, is_type_level: true, location }),
    {
        let mut frame = self.frames.pop().unwrap();
        frame.free_variables.push(Binding { name, definition });
        self.frames.push(frame);
        proof {
            assert(self.frames@.drop_last() =~= old(self).frames@.drop_last());
        }
        Reference { definition, is_type_level: true, location }
    }
}

proof fn lemma_run_ops(s: Seq<ScopeFrame>, ops: Seq<Option<ScopeFrame>>)
    requires
        never_below(ops),
    ensures
        run_ops(s, ops).len() == s.len() + depth_of(ops),
        run_ops(s, ops).take(s.len() as int) == s,
    decreases ops.len(),
{
    if ops.len() > 0 {
        let prev = ops.drop_last();
        assert forall|i: int| 0 <= i <= prev.len() implies #[trigger] depth_of(prev.take(i)) >= 0 by {
            assert(prev.take(i) =~= ops.take(i));
        }
        lemma_run_ops(s, prev);
        assert(ops.take(ops.len() as int) =~= ops);
        assert(depth_of(ops.take(ops.len() as int)) >= 0);
        let r = run_ops(s, prev);
        match ops.last() {
            Some(k) => {
                assert(r.push(k).take(s.len() as int) =~= r.take(s.len() as int));
            },
            None => {
                assert(r.drop_last().take(s.len() as int) =~= r.take(s.len() as int));
            },
        }
    }
}

/// Forks and pops balance: running any sequence of forks and pops that never
/// pops below its starting frame and pops as often as it forks leaves the
/// chain exactly as it was.
pub proof fn lemma_balanced_scope_ops(s: Seq<ScopeFrame>, ops: Seq<Option<ScopeFrame>>)
    requires
        never_below(ops),
        depth_of(ops) == 0,
    ensures
        run_ops(s, ops) == s,
{
    lemma_run_ops(s, ops);
    assert(run_ops(s, ops) =~= run_ops(s, ops).take(s.len() as int));
}

/// A pop right after a fork restores the chain.
pub proof fn lemma_fork_pop(s: Seq<ScopeFrame>, frame: ScopeFrame)
    ensures
        spec_pop(spec_fork(s, frame)) == s,
{
    assert(spec_pop(spec_fork(s, frame)) =~= s);
}

} // verus!
