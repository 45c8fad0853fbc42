use sol_front::db::Jar;
use sol_front::hir::{BuiltinType, DefinitionKind, Expr, Location, TypeRep};
use sol_front::primitives::{initialize_primitive_bag, new_type_rep, primitive_type_definition, primitive_type_rep};

fn builtin_of(t: Option<TypeRep>) -> BuiltinType {
    match *t.expect("registered").expr {
        Expr::Type(b, Location::CallSite) => b,
        ref other => panic!("unexpected representation {:?}", other),
    }
}

#[test]
fn registering_a_name_twice_keeps_one_definition() {
    let mut jar = Jar::new();
    new_type_rep(&mut jar, "Int".to_string(), BuiltinType::Int32);
    let first = primitive_type_definition(&jar, &"Int".to_string()).unwrap();
    new_type_rep(&mut jar, "Int".to_string(), BuiltinType::Bool);
    let second = primitive_type_definition(&jar, &"Int".to_string()).unwrap();
    assert_eq!(first, second);
    assert_eq!(first.kind, DefinitionKind::Type);
    assert!(first.resolved);
    // The first representation wins.
    assert_eq!(builtin_of(primitive_type_rep(&jar, &"Int".to_string())), BuiltinType::Int32);
    assert_eq!(jar.next_id, 2);
}

#[test]
fn unknown_primitive_is_absent() {
    let jar = Jar::new();
    assert!(primitive_type_definition(&jar, &"Float".to_string()).is_none());
    assert!(primitive_type_rep(&jar, &"Float".to_string()).is_none());
}

#[test]
fn initialization_registers_the_builtin_set() {
    let mut jar = Jar::new();
    initialize_primitive_bag(&mut jar);
    let expected = [
        ("String", BuiltinType::String),
        ("Unit", BuiltinType::Unit),
        ("Bool", BuiltinType::Bool),
        ("Int", BuiltinType::Int32),
        ("Int8", BuiltinType::Int8),
        ("UInt8", BuiltinType::UInt8),
        ("Int16", BuiltinType::Int16),
        ("UInt16", BuiltinType::UInt16),
        ("Int32", BuiltinType::Int32),
        ("UInt32", BuiltinType::UInt32),
        ("Int64", BuiltinType::Int64),
        ("UInt64", BuiltinType::UInt64),
        ("Nat", BuiltinType::Nat),
    ];
    for (name, builtin) in expected {
        assert_eq!(builtin_of(primitive_type_rep(&jar, &name.to_string())), builtin, "{}", name);
    }
    // `Int` is an alias of `Int32` by representation, with its own definition.
    let int = primitive_type_definition(&jar, &"Int".to_string()).unwrap();
    let int32 = primitive_type_definition(&jar, &"Int32".to_string()).unwrap();
    assert_ne!(int, int32);
    assert_eq!(jar.next_id, 14);
}

#[test]
fn initialization_is_idempotent() {
    let mut jar = Jar::new();
    initialize_primitive_bag(&mut jar);
    let nat = primitive_type_definition(&jar, &"Nat".to_string()).unwrap();
    initialize_primitive_bag(&mut jar);
    assert_eq!(primitive_type_definition(&jar, &"Nat".to_string()).unwrap(), nat);
    assert_eq!(jar.next_id, 14);
}

#[test]
fn earlier_registration_wins_over_initialization() {
    let mut jar = Jar::new();
    new_type_rep(&mut jar, "Nat".to_string(), BuiltinType::UInt64);
    initialize_primitive_bag(&mut jar);
    assert_eq!(builtin_of(primitive_type_rep(&jar, &"Nat".to_string())), BuiltinType::UInt64);
}

#[test]
fn registering_a_new_name_leaves_the_others_alone() {
    let mut jar = Jar::new();
    new_type_rep(&mut jar, "Bool".to_string(), BuiltinType::Bool);
    let bool_def = primitive_type_definition(&jar, &"Bool".to_string()).unwrap();
    new_type_rep(&mut jar, "Nat".to_string(), BuiltinType::Nat);
    assert_eq!(primitive_type_definition(&jar, &"Bool".to_string()).unwrap(), bool_def);
    assert_eq!(builtin_of(primitive_type_rep(&jar, &"Bool".to_string())), BuiltinType::Bool);
    assert_eq!(builtin_of(primitive_type_rep(&jar, &"Nat".to_string())), BuiltinType::Nat);
}
