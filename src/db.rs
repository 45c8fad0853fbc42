//! The session database: the primitive registry, the supply of definition
//! ids, and the package's global definitions.
use vstd::prelude::*;

use crate::hir::{Definition, DefinitionKind, Location};
use crate::primitives::PrimitiveBag;
use crate::scope::Binding;

verus! {

/// The first global definition named `name` of the requested kind.
pub open spec fn find_in(globals: Seq<Binding>, name: Seq<char>, kind: DefinitionKind) -> Option<Definition>
    decreases globals.len(),
{
    if globals.len() == 0 {
        None
    } else if globals[0].name@ == name && globals[0].definition.kind == kind {
        Some(globals[0].definition)
    } else {
        find_in(globals.drop_first(), name, kind)
    }
}

/// What the lowering asks of the package database: global definitions by
/// name and kind.
pub trait HirDb {
    spec fn spec_find(&self, name: Seq<char>, kind: DefinitionKind) -> Option<Definition>;

    /// Resolves `name` against the package's global definitions of `kind`
    /// (functions, types, constructors or traits).
    fn find_definition(&self, name: &String, kind: DefinitionKind) -> (r: Option<Definition>)
        ensures
            r == self.spec_find(name@, kind),
    ;
}

/// The state of one compilation session.
pub struct Jar {
    pub primitives: PrimitiveBag,
    /// The id the next new definition takes; ids start at 1, 0 marks an
    /// unresolved placeholder.
    pub next_id: u64,
    pub globals: Vec<Binding>,
}

impl Jar {
    pub open spec fn wf(&self) -> bool {
        &&& self.next_id >= 1
        &&& forall|k: Seq<char>| #[trigger] self.primitives.names().contains_key(k) ==> self.primitives.names()[k] < self.next_id
        &&& forall|id: u64| #[trigger] self.primitives.reps().contains_key(id) ==> id < self.next_id
        &&& forall|k: Seq<char>| #[trigger] self.primitives.names().contains_key(k) ==> self.primitives.reps().contains_key(
            self.primitives.names()[k],
        )
    }

    pub fn new() -> (r: Jar)
        ensures
            r.wf(),
            r.next_id == 1,
            r.globals@.len() == 0,
            r.primitives.names() == Map::<Seq<char>, u64>::empty(),
            r.primitives.reps() == Map::<u64, crate::hir::BuiltinType>::empty(),
    {
        Jar { primitives: PrimitiveBag::new(), next_id: 1, globals: Vec::new() }
    }

    /// A new definition with a fresh id; once ids run out, the unresolved
    /// placeholder.
    pub fn fresh_definition(&mut self, kind: DefinitionKind, location: Location) -> (r: Definition)
        requires
            old(self).wf(),
        ensures
            final(self).wf(),
            final(self).globals == old(self).globals,
            final(self).primitives == old(self).primitives,
            old(self).next_id < u64::MAX ==> {
                &&& r == (Definition { id: old(self).next_id, kind, location, resolved: true })
                &&& final(self).next_id == old(self).next_id + 1
            },
            old(self).next_id == u64::MAX ==> {
                &&& r == (Definition { id: 0, kind, location, resolved: false })
                &&& final(self).next_id == old(self).next_id
            },
    {
        if self.next_id < u64::MAX {
            let id = self.next_id;
            self.next_id = id + 1;
            Definition { id, kind, location, resolved: true }
        } else {
            Definition::unresolved(kind, location)
        }
    }

    /// Adds a global definition named `name` to the package.
    pub fn define_global(&mut self, name: String, kind: DefinitionKind, location: Location) -> (r: Definition)
        requires
            old(self).wf(),
        ensures
            final(self).wf(),
            final(self).globals@ == old(self).globals@.push(crate::scope::Binding { name, definition: r }),
            r.kind == kind,
            r.location == location,
    {
        let definition = self.fresh_definition(kind, location);
        self.globals.push(Binding { name, definition });
        definition
    }
}

impl HirDb for Jar {
    open spec fn spec_find(&self, name: Seq<char>, kind: DefinitionKind) -> Option<Definition> {
        find_in(self.globals@, name, kind)
    }

    fn find_definition(&self, name: &String, kind: DefinitionKind) -> (r: Option<Definition>) {
        let mut i: usize = 0;
        proof {
            assert(self.globals@.skip(0) =~= self.globals@);
        }
        while i < self.globals.len()
            invariant
                i <= self.globals@.len(),
                find_in(self.globals@, name@, kind) == find_in(self.globals@.skip(i as int), name@, kind),
            decreases self.globals@.len() - i,
        {
            proof {
                assert(self.globals@.skip(i as int).drop_first() =~= self.globals@.skip(i + 1));
            }
            let g = &self.globals[i];
            if g.name == *name && g.definition.kind == kind {
                return Some(g.definition);
            }
            i = i + 1;
        }
        None
    }
}

} // verus!
