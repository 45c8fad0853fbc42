use std::rc::Rc;

use sol_front::context::Context;
use sol_front::db::Jar;
use sol_front::elab::{create_from_type, thir_check, thir_infer, ElabError, ElaboratedTerm, Elaborator, UnsupportedTermError};
use sol_front::hir::{AnnExpr, BuiltinType, Definition, DefinitionKind, Expr, HirLevel, Literal, Location, Reference, TypeRep};
use sol_front::hir::{Parameter, Pattern, Pi as HirPi};
use sol_front::lowering::HirLowering;
use sol_front::primitives::{initialize_primitive_bag, primitive_type_definition};
use sol_front::meta::{MetaState, MetaStore, UnifyError};
use sol_front::syntax::{PrimaryChild, SyntaxExpr, SyntaxIdent, SyntaxLam, SyntaxPath, SyntaxPattern, SyntaxPrimary};
use sol_front::value::{eval, quote, Closure, Constructor, ConstructorKind, Env, Implicitness, Pi, Term, Value};

fn span(start: u64, end: u64) -> Location {
    Location::Span { start, end }
}

fn def(id: u64) -> Definition {
    Definition { id, kind: DefinitionKind::Function, location: Location::CallSite, resolved: true }
}

fn int_type() -> Value {
    Value::Constructor(Constructor { kind: ConstructorKind::IntType(true, 32), location: Location::CallSite })
}

fn bool_type() -> Value {
    Value::Constructor(Constructor { kind: ConstructorKind::BooleanType, location: Location::CallSite })
}

/// `{a : U} -> Int` as a value.
fn implicit_pi_to_int() -> Value {
    Value::Pi(Pi {
        name: Some(def(9)),
        implicitness: Implicitness::Implicit,
        domain: Rc::new(Value::U),
        codomain: Closure {
            env: Env::Empty,
            expr: Rc::new(Term::Constructor(Constructor {
                kind: ConstructorKind::IntType(true, 32),
                location: Location::CallSite,
            })),
        },
    })
}

#[test]
fn identity_lambda_infers_a_pi_over_a_metavariable() {
    // Lower `\x -> x`.
    let mut l = HirLowering::new(Jar::new());
    let x = SyntaxPattern::Binding(SyntaxIdent { range: span(1, 2), name: "x".to_string() });
    let body = SyntaxExpr::Primary(Box::new(SyntaxPrimary {
        range: span(6, 7),
        child: PrimaryChild::Path(SyntaxPath { range: span(6, 7), name: "x".to_string() }),
    }));
    let lam = SyntaxLam { range: span(0, 7), parameters: vec![x], value: body };
    let e = l.lam_expr(&lam, HirLevel::Expr);
    assert!(l.diagnostics.is_empty());

    let mut db = Elaborator::new();
    let ElaboratedTerm(term, ty) = thir_infer(&mut db, &Context::new(), &e).unwrap();
    let x_def = match term {
        Term::Lam(d, Implicitness::Explicit, ref body) => {
            assert!(matches!(**body, Term::Var(0)));
            d
        }
        ref other => panic!("expected a lambda, got {:?}", other),
    };
    match ty {
        Value::Pi(p) => {
            assert_eq!(p.name, Some(x_def));
            assert_eq!(p.implicitness, Implicitness::Explicit);
            assert!(matches!(*p.domain, Value::Flexible(0)));
            assert!(matches!(*p.codomain.expr, Term::InsertedMeta(0)));
            assert!(matches!(p.codomain.env, Env::Empty));
        }
        other => panic!("expected a pi type, got {:?}", other),
    }
    assert_eq!(db.metas.metas.len(), 1);
}

#[test]
fn non_lambda_against_implicit_pi_becomes_implicit_lambda() {
    let mut db = Elaborator::new();
    let value = Expr::Literal(Literal::Int(5), span(0, 1));
    let t = thir_check(&mut db, &Context::new(), &value, &implicit_pi_to_int()).unwrap();
    match t {
        Term::Lam(d, Implicitness::Implicit, body) => {
            assert_eq!(d, def(9));
            assert!(matches!(*body, Term::Constructor(Constructor { kind: ConstructorKind::Int(5), .. })));
        }
        other => panic!("expected an implicit lambda, got {:?}", other),
    }
    assert!(db.diagnostics.is_empty());
}

#[test]
fn lambda_against_non_function_type_is_an_error() {
    let mut l = HirLowering::new(Jar::new());
    let lam = SyntaxLam {
        range: span(0, 7),
        parameters: vec![SyntaxPattern::Wildcard(span(1, 2))],
        value: SyntaxExpr::Primary(Box::new(SyntaxPrimary { range: span(6, 7), child: PrimaryChild::Universe })),
    };
    let e = l.lam_expr(&lam, HirLevel::Expr);
    let mut db = Elaborator::new();
    let r = thir_check(&mut db, &Context::new(), &e, &int_type());
    assert_eq!(r.unwrap_err(), ElabError::ExpectedFunctionType(span(0, 7)));
}

#[test]
fn hole_checks_to_a_fresh_metavariable() {
    let mut db = Elaborator::new();
    let t = thir_check(&mut db, &Context::new(), &Expr::Hole(span(0, 1)), &int_type()).unwrap();
    assert!(matches!(t, Term::InsertedMeta(0)));
    assert_eq!(db.metas.metas.len(), 1);
}

#[test]
fn hole_infers_a_metavariable_typed_by_another() {
    let mut db = Elaborator::new();
    let ElaboratedTerm(t, ty) = thir_infer(&mut db, &Context::new(), &Expr::Hole(span(0, 1))).unwrap();
    assert!(matches!(t, Term::InsertedMeta(0)));
    assert!(matches!(ty, Value::Flexible(1)));
}

#[test]
fn unsupported_forms_fail_with_their_location() {
    let mut db = Elaborator::new();
    let r = thir_infer(&mut db, &Context::new(), &Expr::Error(span(3, 4)));
    assert_eq!(r.unwrap_err(), ElabError::UnsupportedTerm(UnsupportedTermError { location: span(3, 4) }));
    let r = thir_infer(&mut db, &Context::new(), &Expr::Empty);
    assert_eq!(r.unwrap_err(), ElabError::UnsupportedTerm(UnsupportedTermError { location: Location::CallSite }));
    let r = thir_infer(&mut db, &Context::new(), &Expr::Type(BuiltinType::This, span(1, 5)));
    assert_eq!(r.unwrap_err(), ElabError::UnsupportedTerm(UnsupportedTermError { location: span(1, 5) }));
}

#[test]
fn builtin_types_elaborate_to_constructors_of_the_universe() {
    assert!(matches!(create_from_type(BuiltinType::Universe, Location::CallSite), Ok(Term::U)));
    match create_from_type(BuiltinType::UInt16, span(0, 6)) {
        Ok(Term::Constructor(c)) => {
            assert!(matches!(c.kind, ConstructorKind::IntType(false, 16)));
            assert_eq!(c.location, span(0, 6));
        }
        _ => panic!(),
    }
    assert_eq!(create_from_type(BuiltinType::This, span(2, 3)).unwrap_err(), UnsupportedTermError { location: span(2, 3) });
    let mut db = Elaborator::new();
    let ElaboratedTerm(t, ty) = thir_infer(&mut db, &Context::new(), &Expr::Type(BuiltinType::Nat, span(0, 3))).unwrap();
    assert!(matches!(t, Term::Constructor(Constructor { kind: ConstructorKind::NatType, .. })));
    assert!(matches!(ty, Value::U));
}

#[test]
fn literals_infer_their_canonical_types() {
    let mut db = Elaborator::new();
    let ElaboratedTerm(t, ty) =
        thir_infer(&mut db, &Context::new(), &Expr::Literal(Literal::String("hi".to_string()), span(0, 4))).unwrap();
    assert!(matches!(t, Term::Constructor(Constructor { kind: ConstructorKind::String(ref s), .. }) if s == "hi"));
    assert!(matches!(ty, Value::Constructor(Constructor { kind: ConstructorKind::StringType, .. })));
    let ElaboratedTerm(_, ty) = thir_infer(&mut db, &Context::new(), &Expr::Literal(Literal::Int(7), span(0, 1))).unwrap();
    assert!(matches!(ty, Value::Constructor(Constructor { kind: ConstructorKind::IntType(true, 32), .. })));
}

#[test]
fn mismatch_is_reported_and_checking_goes_on() {
    let mut db = Elaborator::new();
    let value = Expr::Literal(Literal::Bool(true), span(0, 4));
    let t = thir_check(&mut db, &Context::new(), &value, &int_type()).unwrap();
    assert!(matches!(t, Term::Constructor(Constructor { kind: ConstructorKind::True, .. })));
    assert_eq!(db.diagnostics, vec![ElabError::TypeMismatch(span(0, 4), UnifyError::Mismatch)]);
    let value = Expr::Literal(Literal::Bool(false), span(0, 5));
    thir_check(&mut db, &Context::new(), &value, &bool_type()).unwrap();
    assert_eq!(db.diagnostics.len(), 1);
}

#[test]
fn unknown_reference_is_an_error_and_a_declared_global_has_its_type() {
    let mut db = Elaborator::new();
    let r = Reference { definition: def(4), is_type_level: false, location: span(0, 3) };
    assert_eq!(
        thir_infer(&mut db, &Context::new(), &Expr::Path(r)).unwrap_err(),
        ElabError::UnboundReference(span(0, 3))
    );
    db.declare_global(def(4), int_type());
    let ElaboratedTerm(t, ty) = thir_infer(&mut db, &Context::new(), &Expr::Path(r)).unwrap();
    assert!(matches!(t, Term::Constructor(Constructor { kind: ConstructorKind::Reference(_), .. })));
    assert!(matches!(ty, Value::Constructor(Constructor { kind: ConstructorKind::IntType(true, 32), .. })));
}

#[test]
fn exhausted_budget_is_too_deep() {
    let mut db = Elaborator::new();
    let r = db.check(0, &Context::new(), &Expr::Hole(span(0, 1)), &Value::U);
    assert_eq!(r.unwrap_err(), ElabError::TooDeep(span(0, 1)));
}

#[test]
fn metavariable_is_solved_at_most_once() {
    let mut store = MetaStore::new();
    let m = store.fresh(0);
    assert_eq!(store.solve(m, int_type()), Ok(()));
    assert_eq!(store.solve(m, bool_type()), Err(UnifyError::AlreadySolved(m)));
    match &store.metas[m as usize] {
        MetaState::Solved(v) => assert!(matches!(**v, Value::Constructor(Constructor { kind: ConstructorKind::IntType(true, 32), .. }))),
        _ => panic!(),
    }
    assert_eq!(store.solve(7, Value::U), Err(UnifyError::UnknownMeta(7)));
}

#[test]
fn metavariable_cannot_escape_its_scope() {
    let mut store = MetaStore::new();
    let m = store.fresh(1);
    assert_eq!(store.solve(m, Value::Rigid(1)), Err(UnifyError::Escape(m)));
    assert_eq!(store.solve(m, Value::Flexible(m)), Err(UnifyError::Escape(m)));
    assert_eq!(store.solve(m, Value::Rigid(0)), Ok(()));
}

#[test]
fn unification_solves_and_then_compares() {
    let mut store = MetaStore::new();
    let m = store.fresh(0);
    assert_eq!(store.unify(10, 0, &Value::Flexible(m), &int_type()), Ok(()));
    assert_eq!(store.unify(10, 0, &Value::Flexible(m), &int_type()), Ok(()));
    assert_eq!(store.unify(10, 0, &Value::Flexible(m), &bool_type()), Err(UnifyError::Mismatch));
    assert_eq!(store.unify(10, 0, &Value::Rigid(2), &Value::Rigid(2)), Ok(()));
    assert_eq!(store.unify(10, 0, &Value::Rigid(2), &Value::Rigid(3)), Err(UnifyError::Mismatch));
    assert_eq!(store.unify(0, 0, &Value::U, &Value::U), Err(UnifyError::TooDeep));
}

#[test]
fn evaluating_a_pi_keeps_its_codomain_unevaluated() {
    let codomain = Rc::new(Term::Var(0));
    let pi = Term::Pi(
        Some(def(1)),
        Implicitness::Explicit,
        Rc::new(Term::Constructor(Constructor { kind: ConstructorKind::IntType(true, 32), location: Location::CallSite })),
        codomain.clone(),
    );
    let v = eval(&Env::Empty, &pi);
    match v {
        Value::Pi(p) => {
            assert!(Rc::ptr_eq(&p.codomain.expr, &codomain));
            assert!(matches!(p.codomain.env, Env::Empty));
            assert!(matches!(*p.domain, Value::Constructor(Constructor { kind: ConstructorKind::IntType(true, 32), .. })));
            let applied = p.codomain.apply(Value::Constructor(Constructor {
                kind: ConstructorKind::Int(3),
                location: Location::CallSite,
            }));
            assert!(matches!(applied, Value::Constructor(Constructor { kind: ConstructorKind::Int(3), .. })));
        }
        _ => panic!(),
    }
}

#[test]
fn quote_reads_a_pi_back() {
    let pi = Term::Pi(None, Implicitness::Implicit, Rc::new(Term::U), Rc::new(Term::Var(0)));
    let v = eval(&Env::Empty, &pi);
    match quote(16, 0, &v).unwrap() {
        Term::Pi(None, Implicitness::Implicit, a, b) => {
            assert!(matches!(*a, Term::U));
            assert!(matches!(*b, Term::Var(0)));
        }
        _ => panic!(),
    }
    assert!(quote(0, 0, &v).is_none());
}

#[test]
fn environment_lookup_is_by_level() {
    let env = Env::Empty.push(Value::Rigid(10)).push(Value::Rigid(11));
    assert!(matches!(*env.lookup(0).unwrap(), Value::Rigid(10)));
    assert!(matches!(*env.lookup(1).unwrap(), Value::Rigid(11)));
    assert!(env.lookup(2).is_none());
    assert!(matches!(eval(&env, &Term::Var(5)), Value::Rigid(5)));
}

#[test]
fn context_binds_and_looks_up_innermost() {
    let ctx = Context::new().bind(def(1), int_type()).bind(def(1), bool_type());
    let (lvl, ty) = ctx.lookup(def(1)).unwrap();
    assert_eq!(lvl, 1);
    assert!(matches!(*ty, Value::Constructor(Constructor { kind: ConstructorKind::BooleanType, .. })));
    assert!(ctx.lookup(def(2)).is_none());
}

#[test]
fn force_strips_locations() {
    let v = Value::located(span(1, 2), Value::located(span(3, 4), Value::U));
    let (loc, inner) = v.force();
    assert_eq!(loc, Some(span(3, 4)));
    assert!(matches!(inner, Value::U));
    assert!(matches!(Value::new_var(4, None), Value::Rigid(4)));
}

#[test]
fn annotation_checks_the_value_against_the_evaluated_type() {
    let mut db = Elaborator::new();
    let ann = Expr::Ann(AnnExpr {
        value: Box::new(Expr::Literal(Literal::Int(1), span(0, 1))),
        type_rep: TypeRep { expr: Box::new(Expr::Type(BuiltinType::Int32, span(4, 7))) },
        location: span(0, 7),
    });
    let ElaboratedTerm(t, ty) = thir_infer(&mut db, &Context::new(), &ann).unwrap();
    assert!(matches!(t, Term::Constructor(Constructor { kind: ConstructorKind::Int(1), .. })));
    assert!(matches!(ty, Value::Constructor(Constructor { kind: ConstructorKind::IntType(true, 32), .. })));
    assert!(db.diagnostics.is_empty());
}

#[test]
fn annotation_mismatch_is_reported_and_typed_by_the_annotation() {
    let mut db = Elaborator::new();
    let ann = Expr::Ann(AnnExpr {
        value: Box::new(Expr::Literal(Literal::Bool(true), span(0, 4))),
        type_rep: TypeRep { expr: Box::new(Expr::Type(BuiltinType::Int32, span(7, 10))) },
        location: span(0, 10),
    });
    let ElaboratedTerm(t, ty) = thir_infer(&mut db, &Context::new(), &ann).unwrap();
    assert!(matches!(t, Term::Constructor(Constructor { kind: ConstructorKind::True, .. })));
    assert!(matches!(ty, Value::Constructor(Constructor { kind: ConstructorKind::IntType(true, 32), .. })));
    assert_eq!(db.diagnostics, vec![ElabError::TypeMismatch(span(0, 4), UnifyError::Mismatch)]);
}

#[test]
fn hole_inference_adds_two_unsolved_metavariables() {
    let mut db = Elaborator::new();
    thir_infer(&mut db, &Context::new(), &Expr::Hole(span(0, 1))).unwrap();
    assert_eq!(db.metas.metas.len(), 2);
    assert!(db.metas.metas.iter().all(|m| matches!(m, MetaState::Unsolved(0))));
}

#[test]
fn eta_over_an_anonymous_implicit_pi_uses_the_anonymous_binder() {
    let mut db = Elaborator::new();
    let ty = Value::Pi(Pi {
        name: None,
        implicitness: Implicitness::Implicit,
        domain: Rc::new(Value::U),
        codomain: Closure {
            env: Env::Empty,
            expr: Rc::new(Term::Constructor(Constructor { kind: ConstructorKind::BooleanType, location: Location::CallSite })),
        },
    });
    let t = thir_check(&mut db, &Context::new(), &Expr::Literal(Literal::Int(2), span(0, 1)), &ty).unwrap();
    match t {
        Term::Lam(d, Implicitness::Implicit, body) => {
            assert!(!d.resolved);
            assert!(matches!(*body, Term::Constructor(Constructor { kind: ConstructorKind::Int(2), .. })));
        }
        other => panic!("expected an implicit lambda, got {:?}", other),
    }
    // The literal is an integer, the codomain a boolean: reported, not fatal.
    assert_eq!(db.diagnostics, vec![ElabError::TypeMismatch(span(0, 1), UnifyError::Mismatch)]);
}

#[test]
fn unifying_an_unsolved_metavariable_solves_it() {
    let mut store = MetaStore::new();
    let m = store.fresh(0);
    assert_eq!(store.unify(4, 0, &int_type(), &Value::Flexible(m)), Ok(()));
    assert!(matches!(&store.metas[0], MetaState::Solved(v) if matches!(**v, Value::Constructor(_))));
}

#[test]
fn primitive_reference_elaborates_to_its_built_in_type() {
    let mut jar = Jar::new();
    initialize_primitive_bag(&mut jar);
    let int = primitive_type_definition(&jar, &"Int".to_string()).unwrap();
    let mut db = Elaborator::new();
    let r = Reference { definition: int, is_type_level: true, location: span(0, 3) };
    assert_eq!(
        thir_infer(&mut db, &Context::new(), &Expr::Path(r)).unwrap_err(),
        ElabError::UnboundReference(span(0, 3))
    );
    db.declare_primitive(int, BuiltinType::Int32);
    let ElaboratedTerm(t, ty) = thir_infer(&mut db, &Context::new(), &Expr::Path(r)).unwrap();
    assert!(matches!(t, Term::Constructor(Constructor { kind: ConstructorKind::IntType(true, 32), location }) if location == span(0, 3)));
    assert!(matches!(ty, Value::U));
}

#[test]
fn pi_type_binds_its_parameters_outermost_first() {
    let a = def(1);
    let parameter = |binding: Pattern, implicit: bool| Parameter {
        binding,
        type_rep: TypeRep { expr: Box::new(Expr::Type(BuiltinType::Universe, Location::CallSite)) },
        is_implicit: implicit,
        rigid: true,
        level: HirLevel::Type,
        location: Location::CallSite,
    };
    let pi = Expr::Pi(HirPi {
        parameters: vec![parameter(Pattern::Binding(a, Location::CallSite), true), parameter(Pattern::Empty, false)],
        value: Box::new(TypeRep { expr: Box::new(Expr::Type(BuiltinType::Bool, Location::CallSite)) }),
        location: span(0, 9),
    });
    let mut db = Elaborator::new();
    let ElaboratedTerm(t, ty) = thir_infer(&mut db, &Context::new(), &pi).unwrap();
    assert!(matches!(ty, Value::U));
    match t {
        Term::Pi(Some(n), Implicitness::Implicit, dom, rest) => {
            assert_eq!(n, a);
            assert!(matches!(*dom, Term::U));
            match &*rest {
                Term::Pi(None, Implicitness::Explicit, _, body) => {
                    assert!(matches!(**body, Term::Constructor(Constructor { kind: ConstructorKind::BooleanType, .. })))
                }
                other => panic!("expected an inner pi, got {:?}", other),
            }
        }
        other => panic!("expected a pi, got {:?}", other),
    }
}
