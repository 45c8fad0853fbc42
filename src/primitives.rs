//! The registry of primitive types: a table from type names to their
//! canonical definitions, and from those definitions to the built-in type
//! they stand for. The first registration of a name wins.
use vstd::prelude::*;

use dashmap::DashMap;

use crate::db::Jar;
use crate::hir::{BuiltinType, Definition, DefinitionKind, Expr, Location, TypeRep};

verus! {

#[verifier::external_type_specification]
#[verifier::external_body]
#[verifier::reject_recursive_types(K)]
#[verifier::reject_recursive_types(V)]
#[verifier::reject_recursive_types(S)]
pub struct ExDashMap<K, V, S>(DashMap<K, V, S>);

type NameTable = DashMap<String, u64>;

type RepTable = DashMap<u64, BuiltinType>;

/// What the name table holds: type name to definition id.
pub uninterp spec fn name_table(m: DashMap<String, u64>) -> Map<Seq<char>, u64>;

/// What the representation table holds: definition id to built-in type.
pub uninterp spec fn rep_table(m: DashMap<u64, BuiltinType>) -> Map<u64, BuiltinType>;

/// Relies on `DashMap::new`: the map starts empty.
#[verifier::external_body]
fn new_name_table() -> (r: NameTable)
    ensures
        name_table(r) =~= Map::empty(),
{
    DashMap::new()
}

/// Relies on `DashMap::new`: the map starts empty.
#[verifier::external_body]
fn new_rep_table() -> (r: RepTable)
    ensures
        rep_table(r) =~= Map::empty(),
{
    DashMap::new()
}

/// Relies on `DashMap::entry` followed by `Entry::or_insert`: an occupied
/// entry keeps its value and returns it; a vacant one takes `value`.
#[verifier::external_body]
fn name_table_get_or_insert(m: &mut DashMap<String, u64>, key: String, value: u64) -> (r: u64)
    ensures
        name_table(*old(m)).contains_key(key@) ==> {
            &&& r == name_table(*old(m))[key@]
            &&& name_table(*final(m)) == name_table(*old(m))
        },
        !name_table(*old(m)).contains_key(key@) ==> {
            &&& r == value
            &&& name_table(*final(m)) == name_table(*old(m)).insert(key@, value)
        },
{
    *m.entry(key).or_insert(value)
}

/// Relies on `DashMap::get`: the value stored under the key, if any.
#[verifier::external_body]
fn name_table_get(m: &DashMap<String, u64>, key: &String) -> (r: Option<u64>)
    ensures
        r == (if name_table(*m).contains_key(key@) {
            Some(name_table(*m)[key@])
        } else {
            None
        }),
{
    m.get(key).map(|entry| *entry)
}

/// Relies on `DashMap::contains_key`.
#[verifier::external_body]
fn rep_table_contains(m: &DashMap<u64, BuiltinType>, key: u64) -> (r: bool)
    ensures
        r == rep_table(*m).contains_key(key),
{
    m.contains_key(&key)
}

/// Relies on `DashMap::insert`: the key is bound to the value afterwards.
#[verifier::external_body]
fn rep_table_insert(m: &mut DashMap<u64, BuiltinType>, key: u64, value: BuiltinType)
    ensures
        rep_table(*final(m)) == rep_table(*old(m)).insert(key, value),
{
    m.insert(key, value);
}

/// Relies on `DashMap::get`: the value stored under the key, if any.
#[verifier::external_body]
fn rep_table_get(m: &DashMap<u64, BuiltinType>, key: u64) -> (r: Option<BuiltinType>)
    ensures
        r == (if rep_table(*m).contains_key(key) {
            Some(rep_table(*m)[key])
        } else {
            None
        }),
{
    m.get(&key).map(|entry| *entry)
}

/// Gives access to the primitive tables of a session.
pub trait PrimitiveProvider {
    fn primitives(&self) -> (r: &PrimitiveBag);
}

impl PrimitiveProvider for Jar {
    fn primitives(&self) -> (r: &PrimitiveBag) {
        &self.primitives
    }
}

/// The primitive tables of one compilation session.
pub struct PrimitiveBag {
    type_representations: DashMap<String, u64>,
    type_definitions: DashMap<u64, BuiltinType>,
}

/// The canonical definition of the primitive with the given id.
pub open spec fn primitive_definition(id: u64) -> Definition {
    Definition { id, kind: DefinitionKind::Type, location: Location::CallSite, resolved: true }
}

/// The registry after registering `name` as `repr` with `fresh` as the id a
/// new definition would take: a known name keeps its definition, and a
/// definition keeps its first representation.
pub open spec fn spec_register(
    names: Map<Seq<char>, u64>,
    reps: Map<u64, BuiltinType>,
    name: Seq<char>,
    repr: BuiltinType,
    fresh: u64,
) -> (Map<Seq<char>, u64>, Map<u64, BuiltinType>) {
    let names2 = if names.contains_key(name) { names } else { names.insert(name, fresh) };
    let id = names2[name];
    let reps2 = if reps.contains_key(id) { reps } else { reps.insert(id, repr) };
    (names2, reps2)
}

impl PrimitiveBag {
    pub closed spec fn names(&self) -> Map<Seq<char>, u64> {
        name_table(self.type_representations)
    }

    pub closed spec fn reps(&self) -> Map<u64, BuiltinType> {
        rep_table(self.type_definitions)
    }

    pub fn new() -> (r: PrimitiveBag)
        ensures
            r.names() == Map::<Seq<char>, u64>::empty(),
            r.reps() == Map::<u64, BuiltinType>::empty(),
    {
        PrimitiveBag { type_representations: new_name_table(), type_definitions: new_rep_table() }
    }

    /// Inserts-or-finds the definition id of `name`, then records `repr` for
    /// it unless it already has a representation. Returns the id.
    pub fn register(&mut self, name: String, repr: BuiltinType, fresh: u64) -> (r: u64)
        ensures
            (final(self).names(), final(self).reps()) == spec_register(
                old(self).names(),
                old(self).reps(),
                name@,
                repr,
                fresh,
            ),
            r == final(self).names()[name@],
            r == (if old(self).names().contains_key(name@) { old(self).names()[name@] } else { fresh }),
    {
        let id = name_table_get_or_insert(&mut self.type_representations, name, fresh);
        if !rep_table_contains(&self.type_definitions, id) {
            rep_table_insert(&mut self.type_definitions, id, repr);
        }
        id
    }

    /// The definition id registered for `name`.
    pub fn definition_id(&self, name: &String) -> (r: Option<u64>)
        ensures
            r == (if self.names().contains_key(name@) { Some(self.names()[name@]) } else { None }),
    {
        name_table_get(&self.type_representations, name)
    }

    /// The built-in type recorded for a definition id.
    pub fn representation(&self, id: u64) -> (r: Option<BuiltinType>)
        ensures
            r == (if self.reps().contains_key(id) { Some(self.reps()[id]) } else { None }),
    {
        rep_table_get(&self.type_definitions, id)
    }
}

/// Registers `name` as a primitive type standing for `repr`. The first
/// registration of a name fixes its definition and its representation; later
/// ones change nothing.
pub fn new_type_rep(db: &mut Jar, name: String, repr: BuiltinType)
    requires
        old(db).wf(),
        !old(db).primitives.names().contains_key(name@) ==> old(db).next_id < u64::MAX,
    ensures
        final(db).wf(),
        (final(db).primitives.names(), final(db).primitives.reps()) == spec_register(
            old(db).primitives.names(),
            old(db).primitives.reps(),
            name@,
            repr,
            old(db).next_id,
        ),
        final(db).next_id == (if old(db).primitives.names().contains_key(name@) {
            old(db).next_id
        } else {
            (old(db).next_id + 1) as u64
        }),
        final(db).globals == old(db).globals,
        // Every other name keeps its definition and representation.
        forall|k: Seq<char>| #[trigger] old(db).primitives.names().contains_key(k) && k != name@ ==> final(db).primitives.names()[k] == old(db).primitives.names()[k] && final(db).primitives.reps()[final(db).primitives.names()[k]] == old(db).primitives.reps()[old(db).primitives.names()[k]],
{
    let fresh = db.next_id;
    let ghost known = db.primitives.names().contains_key(name@);
    let id = db.primitives.register(name, repr, fresh);
    if id == fresh {
        proof {
            if known {
                assert(old(db).primitives.names().contains_value(id));
            }
        }
        db.next_id = fresh + 1;
    }
    proof {
        assert forall|k: Seq<char>| #[trigger] db.primitives.names().contains_key(k) implies db.primitives.names()[k] < db.next_id by {
            if k != name@ {
                assert(old(db).primitives.names().contains_key(k));
            }
        }
        assert forall|k: u64| #[trigger] db.primitives.reps().contains_key(k) implies k < db.next_id by {
            if k != id {
                assert(old(db).primitives.reps().contains_key(k));
            }
        }
        assert forall|k: Seq<char>| #[trigger] db.primitives.names().contains_key(k) implies db.primitives.reps().contains_key(
            db.primitives.names()[k],
        ) by {
            if k != name@ {
                assert(old(db).primitives.names().contains_key(k));
            }
        }
        assert forall|k: Seq<char>| #[trigger] old(db).primitives.names().contains_key(k) && k != name@ implies db.primitives.names()[k]
            == old(db).primitives.names()[k] && db.primitives.reps()[db.primitives.names()[k]] == old(db).primitives.reps()[old(db).primitives.names()[k]] by {
            assert(old(db).primitives.reps().contains_key(old(db).primitives.names()[k]));
        }
    }
}

/// The built-in primitive types, by name, in registration order.
pub open spec fn builtin_primitives() -> Seq<(Seq<char>, BuiltinType)> {
    seq![
        ("String"@, BuiltinType::String),
        ("Unit"@, BuiltinType::Unit),
        ("Bool"@, BuiltinType::Bool),
        ("Int"@, BuiltinType::Int32),
        ("Int8"@, BuiltinType::Int8),
        ("UInt8"@, BuiltinType::UInt8),
        ("Int16"@, BuiltinType::Int16),
        ("UInt16"@, BuiltinType::UInt16),
        ("Int32"@, BuiltinType::Int32),
        ("UInt32"@, BuiltinType::UInt32),
        ("Int64"@, BuiltinType::Int64),
        ("UInt64"@, BuiltinType::UInt64),
        ("Nat"@, BuiltinType::Nat),
    ]
}

fn builtin_primitive_list() -> (r: Vec<(String, BuiltinType)>)
    ensures
        r@.len() == builtin_primitives().len(),
        forall|i: int| 0 <= i < r@.len() ==> (#[trigger] r@[i]).0@ == builtin_primitives()[i].0 && r@[i].1
            == builtin_primitives()[i].1,
{
    let mut v: Vec<(String, BuiltinType)> = Vec::new();
    v.push(("String".to_owned(), BuiltinType::String));
    v.push(("Unit".to_owned(), BuiltinType::Unit));
    v.push(("Bool".to_owned(), BuiltinType::Bool));
    v.push(("Int".to_owned(), BuiltinType::Int32));
    v.push(("Int8".to_owned(), BuiltinType::Int8));
    v.push(("UInt8".to_owned(), BuiltinType::UInt8));
    v.push(("Int16".to_owned(), BuiltinType::Int16));
    v.push(("UInt16".to_owned(), BuiltinType::UInt16));
    v.push(("Int32".to_owned(), BuiltinType::Int32));
    v.push(("UInt32".to_owned(), BuiltinType::UInt32));
    v.push(("Int64".to_owned(), BuiltinType::Int64));
    v.push(("UInt64".to_owned(), BuiltinType::UInt64));
    v.push(("Nat".to_owned(), BuiltinType::Nat));
    v
}

/// Whether entry `j` of the list is the first one with its name.
pub open spec fn first_listing(list: Seq<(Seq<char>, BuiltinType)>, j: int) -> bool {
    forall|k: int| 0 <= k < j ==> (#[trigger] list[k]).0 != list[j].0
}

/// Registers the built-in primitive types. Names registered before keep
/// their definition and representation; every other listed name gets a new
/// definition standing for the first type listed under it.
#[verifier::rlimit(100)]
pub fn initialize_primitive_bag(db: &mut Jar)
    requires
        old(db).wf(),
        old(db).next_id <= u64::MAX - 13,
    ensures
        final(db).wf(),
        final(db).globals == old(db).globals,
        forall|k: Seq<char>| #[trigger] old(db).primitives.names().contains_key(k) ==> final(db).primitives.names().contains_key(k)
            && final(db).primitives.names()[k] == old(db).primitives.names()[k],
        forall|id: u64| #[trigger] old(db).primitives.reps().contains_key(id) ==> final(db).primitives.reps().contains_key(id)
            && final(db).primitives.reps()[id] == old(db).primitives.reps()[id],
        final(db).next_id <= old(db).next_id + 13,
        (forall|j: int| 0 <= j < builtin_primitives().len() ==> old(db).primitives.names().contains_key(
            #[trigger] builtin_primitives()[j].0,
        )) ==> final(db).next_id == old(db).next_id,
        forall|k: Seq<char>| #[trigger] final(db).primitives.names().contains_key(k) ==> old(db).primitives.names().contains_key(k)
            || exists|j: int| 0 <= j < builtin_primitives().len() && (#[trigger] builtin_primitives()[j]).0 == k,
        forall|j: int| 0 <= j < builtin_primitives().len() ==> {
            let name = (#[trigger] builtin_primitives()[j]).0;
            &&& final(db).primitives.names().contains_key(name)
            &&& final(db).primitives.reps().contains_key(final(db).primitives.names()[name])
            &&& (!old(db).primitives.names().contains_key(name) && first_listing(builtin_primitives(), j))
                ==> final(db).primitives.reps()[final(db).primitives.names()[name]] == builtin_primitives()[j].1
        },
{
    let list = builtin_primitive_list();
    let ghost spec_list = builtin_primitives();
    let mut i: usize = 0;
    while i < list.len()
        invariant
            list@.len() == spec_list.len(),
            spec_list == builtin_primitives(),
            forall|j: int| 0 <= j < list@.len() ==> (#[trigger] list@[j]).0@ == spec_list[j].0 && list@[j].1
                == spec_list[j].1,
            i <= list@.len(),
            db.wf(),
            db.next_id <= old(db).next_id + i,
            (forall|j: int| 0 <= j < spec_list.len() ==> old(db).primitives.names().contains_key(
                #[trigger] spec_list[j].0,
            )) ==> db.next_id == old(db).next_id,
            old(db).next_id <= u64::MAX - 13,
            db.globals == old(db).globals,
            forall|k: Seq<char>| #[trigger] old(db).primitives.names().contains_key(k) ==> db.primitives.names().contains_key(k)
                && db.primitives.names()[k] == old(db).primitives.names()[k],
            forall|id: u64| #[trigger] old(db).primitives.reps().contains_key(id) ==> db.primitives.reps().contains_key(id)
                && db.primitives.reps()[id] == old(db).primitives.reps()[id],
            forall|k: Seq<char>| #[trigger] db.primitives.names().contains_key(k) ==> old(db).primitives.names().contains_key(k)
                || exists|j: int| 0 <= j < i && (#[trigger] spec_list[j]).0 == k,
            forall|j: int| 0 <= j < i ==> {
                let name = (#[trigger] spec_list[j]).0;
                &&& db.primitives.names().contains_key(name)
                &&& db.primitives.reps().contains_key(db.primitives.names()[name])
                &&& (!old(db).primitives.names().contains_key(name) && first_listing(spec_list, j))
                    ==> db.primitives.reps()[db.primitives.names()[name]] == spec_list[j].1
            },
        decreases list@.len() - i,
    {
        let name = list[i].0.clone();
        let repr = list[i].1;
        let ghost before = *db;
        new_type_rep(db, name, repr);
        proof {
            let n = spec_list[i as int].0;
            assert forall|k: Seq<char>| #[trigger] db.primitives.names().contains_key(k) implies old(db).primitives.names().contains_key(k)
                || exists|j: int| 0 <= j < i + 1 && (#[trigger] spec_list[j]).0 == k by {
                if k == n {
                    assert(spec_list[i as int].0 == k);
                } else {
                    assert(before.primitives.names().contains_key(k));
                    if !old(db).primitives.names().contains_key(k) {
                        let w = choose|w: int| 0 <= w < i && (#[trigger] spec_list[w]).0 == k;
                        assert(spec_list[w].0 == k);
                    }
                }
            }
            assert forall|j: int| 0 <= j < i + 1 implies {
                let name = (#[trigger] spec_list[j]).0;
                &&& db.primitives.names().contains_key(name)
                &&& db.primitives.reps().contains_key(db.primitives.names()[name])
                &&& (!old(db).primitives.names().contains_key(name) && first_listing(spec_list, j))
                    ==> db.primitives.reps()[db.primitives.names()[name]] == spec_list[j].1
            } by {
                let m = spec_list[j].0;
                if j < i {
                    assert(before.primitives.names().contains_key(m));
                    assert(before.primitives.reps().contains_key(before.primitives.names()[m]));
                } else {
                    if !before.primitives.names().contains_key(n) {
                        assert(!before.primitives.reps().contains_key(before.next_id));
                    }
                    if !old(db).primitives.names().contains_key(n) && first_listing(spec_list, j) {
                        assert forall|k: int| 0 <= k < j implies spec_list[k].0 != n by {
                            assert(spec_list[k].0 != spec_list[j].0);
                        }
                        if before.primitives.names().contains_key(n) {
                            let w = choose|w: int| 0 <= w < i && (#[trigger] spec_list[w]).0 == n;
                            assert(spec_list[w].0 != spec_list[j].0);
                        }
                    }
                }
            }
        }
        i = i + 1;
    }
}

/// The type representation of a registered primitive.
pub fn primitive_type_rep(db: &Jar, name: &String) -> (r: Option<TypeRep>)
    ensures
        r.is_some() == (db.primitives.names().contains_key(name@) && db.primitives.reps().contains_key(
            db.primitives.names()[name@],
        )),
        r.is_some() ==> *r.unwrap().expr == Expr::Type(
            db.primitives.reps()[db.primitives.names()[name@]],
            Location::CallSite,
        ),
{
    match db.primitives.definition_id(name) {
        None => None,
        Some(id) => match db.primitives.representation(id) {
            None => None,
            Some(ty) => Some(Expr::Type(ty, Location::CallSite).upgrade()),
        },
    }
}

/// The canonical definition of a registered primitive.
pub fn primitive_type_definition(db: &Jar, name: &String) -> (r: Option<Definition>)
    ensures
        r == (if db.primitives.names().contains_key(name@) {
            Some(primitive_definition(db.primitives.names()[name@]))
        } else {
            None
        }),
{
    match db.primitives.definition_id(name) {
        None => None,
        Some(id) => Some(Definition { id, kind: DefinitionKind::Type, location: Location::CallSite, resolved: true }),
    }
}

/// Registering a name a second time, with any representation, changes
/// nothing: the name keeps the one definition and representation it got
/// first.
pub proof fn lemma_register_idempotent(
    names: Map<Seq<char>, u64>,
    reps: Map<u64, BuiltinType>,
    name: Seq<char>,
    first: BuiltinType,
    second: BuiltinType,
    fresh1: u64,
    fresh2: u64,
)
    ensures
        ({
            let once = spec_register(names, reps, name, first, fresh1);
            let twice = spec_register(once.0, once.1, name, second, fresh2);
            &&& twice == once
            &&& primitive_definition(twice.0[name]) == primitive_definition(once.0[name])
        }),
{
}

} // verus!
