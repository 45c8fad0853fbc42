use sol_front::db::Jar;
use sol_front::hir::{BuiltinType, CallKind, Callee, DefinitionKind, Expr, HirLevel, Literal, Location, MatchKind, Pattern};
use sol_front::lowering::{HirErrorKind, HirLowering};
use sol_front::primitives::{initialize_primitive_bag, primitive_type_definition};
use sol_front::scope::ScopeKind;
use sol_front::syntax::{
    ArmBody, BinaryRhs, PiParameters, PrimaryChild, SigmaParameter, SyntaxApp, SyntaxBinary, SyntaxBlock, SyntaxExpr,
    SyntaxIdent, SyntaxIf, SyntaxLam, SyntaxParameter, SyntaxPath, SyntaxPattern, SyntaxPi, SyntaxPrimary,
    SyntaxReturn, SyntaxSigma, SyntaxStmt, SyntaxTypeApp,
};

fn span(start: u64, end: u64) -> Location {
    Location::Span { start, end }
}

fn path_primary(name: &str, start: u64) -> SyntaxPrimary {
    let range = span(start, start + name.len() as u64);
    SyntaxPrimary { range, child: PrimaryChild::Path(SyntaxPath { range, name: name.to_string() }) }
}

fn path(name: &str, start: u64) -> SyntaxExpr {
    SyntaxExpr::Primary(Box::new(path_primary(name, start)))
}

fn literal(l: Literal, start: u64) -> SyntaxExpr {
    SyntaxExpr::Primary(Box::new(SyntaxPrimary { range: span(start, start + 1), child: PrimaryChild::Literal(l) }))
}

fn binding(name: &str, start: u64) -> SyntaxPattern {
    SyntaxPattern::Binding(SyntaxIdent { range: span(start, start + name.len() as u64), name: name.to_string() })
}

fn lowering() -> HirLowering {
    HirLowering::new(Jar::new())
}

#[test]
fn if_lowers_to_two_arm_match_true_then_false() {
    let mut l = lowering();
    let tree = SyntaxIf {
        range: span(0, 30),
        condition: literal(Literal::Bool(true), 3),
        consequence: ArmBody::Expr(literal(Literal::Int(1), 10)),
        otherwise: ArmBody::Expr(literal(Literal::Int(2), 20)),
    };
    let e = l.if_expr(&tree, HirLevel::Expr);
    match e {
        Expr::Match(m) => {
            assert_eq!(m.kind, MatchKind::If);
            assert_eq!(m.location, span(0, 30));
            assert_eq!(m.clauses.len(), 2);
            assert!(matches!(m.clauses[0].pattern, Pattern::Literal(Literal::Bool(true), Location::CallSite)));
            assert!(matches!(m.clauses[1].pattern, Pattern::Literal(Literal::Bool(false), Location::CallSite)));
            assert!(matches!(m.clauses[0].value, Expr::Literal(Literal::Int(1), _)));
            assert!(matches!(m.clauses[1].value, Expr::Literal(Literal::Int(2), _)));
            assert_eq!(m.clauses[0].location, span(10, 11));
            assert_eq!(m.clauses[1].location, span(20, 21));
            assert!(matches!(*m.scrutinee, Expr::Literal(Literal::Bool(true), _)));
        }
        other => panic!("expected a match, got {:?}", other),
    }
    assert!(l.diagnostics.is_empty());
}

#[test]
fn unresolved_name_is_reported_once_and_lowered_to_placeholder() {
    let mut l = lowering();
    let e = l.primary(&path_primary("foo", 7), HirLevel::Expr);
    match e {
        Expr::Path(r) => {
            assert!(!r.definition.resolved);
            assert_eq!(r.definition.kind, DefinitionKind::Function);
            assert_eq!(r.location, span(7, 10));
            assert!(!r.is_type_level);
        }
        other => panic!("expected a path, got {:?}", other),
    }
    assert_eq!(l.diagnostics.len(), 1);
    assert_eq!(l.diagnostics[0].kind, HirErrorKind::Unresolved);
    assert_eq!(l.diagnostics[0].label, span(7, 10));
}

#[test]
fn unresolved_name_inside_a_call_still_lowers_the_whole_tree() {
    let mut l = lowering();
    let tree = SyntaxApp {
        range: span(0, 9),
        callee: path_primary("foo", 0),
        arguments: vec![path_primary("bar", 4)],
        blocks: vec![],
    };
    let e = l.app_expr(&tree, HirLevel::Expr);
    match e {
        Expr::Call(c) => {
            assert_eq!(c.arguments.len(), 1);
            assert!(c.do_notation.is_none());
            assert!(matches!(c.callee, Callee::Expr(_)));
        }
        other => panic!("expected a call, got {:?}", other),
    }
    assert_eq!(l.diagnostics.len(), 2);
    assert_eq!(l.diagnostics[0].label, span(0, 3));
    assert_eq!(l.diagnostics[1].label, span(4, 7));
}

#[test]
fn global_function_resolves_without_diagnostic() {
    let mut jar = Jar::new();
    let d = jar.define_global("foo".to_string(), DefinitionKind::Function, span(100, 103));
    let mut l = HirLowering::new(jar);
    match l.expr(&path("foo", 0), HirLevel::Expr) {
        Expr::Path(r) => assert_eq!(r.definition, d),
        other => panic!("expected a path, got {:?}", other),
    }
    // At the type level the same name is looked up among types.
    match l.expr(&path("foo", 0), HirLevel::Type) {
        Expr::Path(r) => assert!(!r.definition.resolved),
        other => panic!("expected a path, got {:?}", other),
    }
    assert_eq!(l.diagnostics.len(), 1);
}

#[test]
fn primitive_type_name_lowers_to_a_reference_to_its_definition() {
    let mut jar = Jar::new();
    initialize_primitive_bag(&mut jar);
    let int = primitive_type_definition(&jar, &"Int".to_string()).unwrap();
    let mut l = HirLowering::new(jar);
    let t = l.type_expr(&path("Int", 5));
    match *t.expr {
        Expr::Path(r) => {
            assert_eq!(r.definition, int);
            assert!(r.is_type_level);
            assert_eq!(r.location, Location::Span { start: 5, end: 8 });
        }
        ref other => panic!("expected a path, got {:?}", other),
    }
    let t = l.type_expr(&path("Bool", 0));
    assert!(matches!(*t.expr, Expr::Path(r) if r.definition.kind == DefinitionKind::Type && r.definition.resolved));
    assert!(l.diagnostics.is_empty());
    // At the expression level a primitive name is not a function.
    let _ = l.expr(&path("Int", 0), HirLevel::Expr);
    assert_eq!(l.diagnostics.len(), 1);
}

#[test]
fn lambda_binds_its_parameters_and_restores_the_scope() {
    let mut l = lowering();
    let frames_before = l.scope.frames.len();
    let tree = SyntaxLam { range: span(0, 7), parameters: vec![binding("x", 1)], value: path("x", 6) };
    let e = l.lam_expr(&tree, HirLevel::Expr);
    assert_eq!(l.scope.frames.len(), frames_before);
    assert!(l.scope.frames[0].bindings.is_empty());
    match e {
        Expr::Lam(lam) => {
            assert_eq!(lam.parameters.len(), 1);
            assert_eq!(lam.scope.kind, ScopeKind::Lambda);
            assert_eq!(lam.scope.bindings.len(), 1);
            let x = match lam.parameters[0] {
                Pattern::Binding(d, _) => d,
                ref other => panic!("expected a binding, got {:?}", other),
            };
            assert!(x.resolved);
            match *lam.value {
                Expr::Path(r) => assert_eq!(r.definition, x),
                ref other => panic!("expected a path, got {:?}", other),
            }
        }
        other => panic!("expected a lambda, got {:?}", other),
    }
    assert!(l.diagnostics.is_empty());
    // Out of the lambda, `x` no longer resolves.
    let _ = l.expr(&path("x", 20), HirLevel::Expr);
    assert_eq!(l.diagnostics.len(), 1);
}

#[test]
fn inner_binding_shadows_outer() {
    let mut l = lowering();
    let inner = SyntaxLam { range: span(4, 11), parameters: vec![binding("x", 5)], value: path("x", 10) };
    let outer = SyntaxLam {
        range: span(0, 11),
        parameters: vec![binding("x", 1)],
        value: SyntaxExpr::Lam(Box::new(inner)),
    };
    match l.lam_expr(&outer, HirLevel::Expr) {
        Expr::Lam(o) => {
            let outer_x = match o.parameters[0] {
                Pattern::Binding(d, _) => d,
                _ => panic!(),
            };
            match *o.value {
                Expr::Lam(ref i) => {
                    let inner_x = match i.parameters[0] {
                        Pattern::Binding(d, _) => d,
                        _ => panic!(),
                    };
                    assert_ne!(inner_x, outer_x);
                    match *i.value {
                        Expr::Path(r) => assert_eq!(r.definition, inner_x),
                        _ => panic!(),
                    }
                }
                _ => panic!(),
            }
        }
        _ => panic!(),
    }
}

#[test]
fn binary_expression_is_an_infix_call_of_the_operator() {
    let mut jar = Jar::new();
    let plus = jar.define_global("+".to_string(), DefinitionKind::Function, Location::CallSite);
    let mut l = HirLowering::new(jar);
    let tree = SyntaxBinary {
        range: span(0, 5),
        lhs: literal(Literal::Int(1), 0),
        op: SyntaxIdent { range: span(2, 3), name: "+".to_string() },
        rhs: BinaryRhs::Primary(Box::new(path_primary("y", 4))),
    };
    match l.binary_expr(&tree, HirLevel::Expr) {
        Expr::Call(c) => {
            assert_eq!(c.kind, CallKind::Infix);
            assert_eq!(c.arguments.len(), 2);
            match c.callee {
                Callee::Reference(r) => {
                    assert_eq!(r.definition, plus);
                    assert_eq!(r.location, span(0, 5));
                }
                _ => panic!(),
            }
        }
        _ => panic!(),
    }
    // `y` is unresolved.
    assert_eq!(l.diagnostics.len(), 1);
    assert_eq!(l.diagnostics[0].label, span(4, 5));
}

#[test]
fn return_outside_do_notation_is_reported() {
    let mut l = lowering();
    let tree = SyntaxReturn { range: span(0, 6), value: None };
    match l.return_expr(&tree, HirLevel::Expr) {
        Expr::Call(c) => {
            assert!(matches!(c.callee, Callee::Pure));
            assert_eq!(c.arguments.len(), 1);
            assert!(matches!(c.arguments[0], Expr::Call(ref u) if matches!(u.callee, Callee::Unit)));
        }
        _ => panic!(),
    }
    assert_eq!(l.diagnostics.len(), 1);
    assert_eq!(l.diagnostics[0].kind, HirErrorKind::ReturnOutsideDoNotation);
    assert_eq!(l.diagnostics[0].label, span(0, 6));
}

#[test]
fn return_inside_a_block_is_accepted() {
    let mut l = lowering();
    let ret = SyntaxPrimary {
        range: span(2, 10),
        child: PrimaryChild::Return(SyntaxReturn { range: span(2, 10), value: Some(Box::new(literal(Literal::Int(3), 9))) }),
    };
    let block = SyntaxBlock { range: span(0, 12), statements: vec![SyntaxStmt::Expr(SyntaxExpr::Primary(Box::new(ret)))] };
    let b = l.block(&block, HirLevel::Expr);
    assert_eq!(b.statements.len(), 1);
    assert!(l.diagnostics.is_empty());
    assert_eq!(l.scope.frames.len(), 1);
}

#[test]
fn last_trailing_block_is_the_do_notation_and_several_are_reported() {
    let mut l = lowering();
    let first = SyntaxBlock { range: span(4, 6), statements: vec![] };
    let second = SyntaxBlock { range: span(7, 9), statements: vec![] };
    let tree = SyntaxApp { range: span(0, 9), callee: path_primary("f", 0), arguments: vec![], blocks: vec![first, second] };
    match l.app_expr(&tree, HirLevel::Expr) {
        Expr::Call(c) => assert_eq!(c.do_notation.unwrap().location, span(7, 9)),
        _ => panic!(),
    }
    assert_eq!(l.diagnostics.len(), 2);
    assert_eq!(l.diagnostics[1].kind, HirErrorKind::AmbiguousDoNotation);
}

#[test]
fn bare_pi_parameter_is_unnamed() {
    let mut jar = Jar::new();
    initialize_primitive_bag(&mut jar);
    let mut l = HirLowering::new(jar);
    let tree = SyntaxPi { range: span(0, 10), parameter: PiParameters::Bare(path("Int", 0)), value: path("Bool", 7) };
    let t = l.pi_expr(&tree);
    match *t.expr {
        Expr::Pi(ref p) => {
            assert_eq!(p.parameters.len(), 1);
            assert!(matches!(p.parameters[0].binding, Pattern::Empty));
            assert!(!p.parameters[0].is_implicit);
            assert!(matches!(*p.parameters[0].type_rep.expr, Expr::Path(r) if r.definition.resolved && r.is_type_level));
            assert!(!p.parameters[0].rigid);
        }
        _ => panic!(),
    }
    assert_eq!(l.scope.frames.len(), 1);
    assert!(l.diagnostics.is_empty());
}

#[test]
fn forall_parameters_are_implicit_and_scoped_to_the_pi() {
    let mut l = lowering();
    let parameter = SyntaxParameter {
        range: span(7, 15),
        pattern: binding("a", 8),
        type_rep: SyntaxExpr::Primary(Box::new(SyntaxPrimary { range: span(12, 14), child: PrimaryChild::Universe })),
    };
    let tree = SyntaxPi { range: span(0, 20), parameter: PiParameters::Forall(vec![parameter]), value: path("a", 19) };
    let t = l.pi_expr(&tree);
    match *t.expr {
        Expr::Pi(ref p) => {
            assert!(p.parameters[0].is_implicit);
            let a = match p.parameters[0].binding {
                Pattern::Binding(d, _) => d,
                _ => panic!(),
            };
            assert!(matches!(*p.parameters[0].type_rep.expr, Expr::Type(BuiltinType::Universe, _)));
            match *p.value.expr {
                Expr::Path(r) => {
                    assert_eq!(r.definition, a);
                    assert!(r.is_type_level);
                }
                _ => panic!(),
            }
        }
        _ => panic!(),
    }
    assert!(l.diagnostics.is_empty());
    assert_eq!(l.scope.frames.len(), 1);
}

#[test]
fn sigma_pattern_parameter_gets_a_hole_type() {
    let mut l = lowering();
    let tree = SyntaxSigma {
        range: span(0, 12),
        parameters: vec![SigmaParameter::Pattern(binding("p", 1))],
        value: path("p", 10),
    };
    let t = l.sigma_expr(&tree);
    match *t.expr {
        Expr::Sigma(ref s) => {
            assert_eq!(s.parameters.len(), 1);
            assert!(s.parameters[0].is_implicit);
            assert!(matches!(*s.parameters[0].type_rep.expr, Expr::Hole(Location::Span { start: 1, end: 2 })));
        }
        _ => panic!(),
    }
    assert!(l.diagnostics.is_empty());
}

#[test]
fn type_application_is_a_prefix_call() {
    let mut jar = Jar::new();
    let list = jar.define_global("List".to_string(), DefinitionKind::Type, Location::CallSite);
    initialize_primitive_bag(&mut jar);
    let mut l = HirLowering::new(jar);
    let tree = SyntaxTypeApp { range: span(0, 8), callee: path_primary("List", 0), arguments: vec![path_primary("Int", 5)] };
    let t = l.type_app_expr(&tree);
    match *t.expr {
        Expr::Call(ref c) => {
            assert_eq!(c.kind, CallKind::Prefix);
            assert_eq!(c.arguments.len(), 1);
            match c.callee {
                Callee::Expr(ref e) => match **e {
                    Expr::Path(r) => assert_eq!(r.definition, list),
                    _ => panic!(),
                },
                _ => panic!(),
            }
            assert!(matches!(c.arguments[0], Expr::Path(r) if r.definition.resolved && r.is_type_level));
        }
        _ => panic!(),
    }
}

#[test]
fn free_variable_is_registered_at_type_level() {
    let mut l = lowering();
    let tree = SyntaxPrimary {
        range: span(0, 2),
        child: PrimaryChild::FreeVariable(SyntaxIdent { range: span(0, 2), name: "a".to_string() }),
    };
    match l.primary(&tree, HirLevel::Type) {
        Expr::Path(r) => {
            assert!(r.is_type_level);
            assert!(r.definition.resolved);
        }
        _ => panic!(),
    }
    assert_eq!(l.scope.frames[0].free_variables.len(), 1);
    assert_eq!(l.scope.frames[0].free_variables[0].name, "a");
}

#[test]
fn universe_primary_is_the_universe_type() {
    let mut l = lowering();
    let tree = SyntaxPrimary { range: span(3, 7), child: PrimaryChild::Universe };
    assert!(matches!(l.primary(&tree, HirLevel::Type), Expr::Type(BuiltinType::Universe, Location::Span { start: 3, end: 7 })));
}
