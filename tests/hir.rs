use sol_front::hir::{BuiltinType, Expr, Location};

#[test]
fn upgrade_then_downgrade_gives_back_the_expression() {
    let e = Expr::Type(BuiltinType::Bool, Location::Span { start: 1, end: 5 });
    let back = e.upgrade().downgrade();
    assert!(matches!(back, Expr::Type(BuiltinType::Bool, Location::Span { start: 1, end: 5 })));
    let hole = Expr::Hole(Location::CallSite).upgrade();
    assert!(matches!(*hole.expr, Expr::Hole(Location::CallSite)));
    assert!(matches!(hole.downgrade(), Expr::Hole(Location::CallSite)));
}

#[test]
fn upgraded_expression_keeps_its_location() {
    let e = Expr::Upgrade(Box::new(Expr::Hole(Location::Span { start: 2, end: 3 }).upgrade()));
    assert_eq!(e.location(), Location::Span { start: 2, end: 3 });
    assert_eq!(Expr::Empty.location(), Location::CallSite);
}

use sol_front::hir::{CallExpr, CallKind, Callee, Definition, DefinitionKind, Reference};
use sol_front::walking::{HirListener, Walker};

#[derive(Default)]
struct Counter {
    references: usize,
    holes: usize,
    calls_entered: usize,
    calls_exited: usize,
}

impl HirListener for Counter {
    fn visit_reference(&mut self, _reference: Reference) {
        self.references += 1;
    }

    fn visit_hole(&mut self, _location: Location) {
        self.holes += 1;
    }

    fn enter_call_expr(&mut self, _call: &CallExpr) {
        self.calls_entered += 1;
    }

    fn exit_call_expr(&mut self, _call: &CallExpr) {
        self.calls_exited += 1;
    }
}

#[test]
fn walker_visits_every_node_of_a_call() {
    let d = Definition { id: 1, kind: DefinitionKind::Function, location: Location::CallSite, resolved: true };
    let r = Reference { definition: d, is_type_level: false, location: Location::CallSite };
    let call = Expr::Call(CallExpr {
        kind: CallKind::Infix,
        callee: Callee::Reference(r),
        arguments: vec![Expr::Path(r), Expr::Hole(Location::CallSite)],
        do_notation: None,
        location: Location::CallSite,
    });
    let mut counter = Counter::default();
    call.accept(&mut counter);
    assert_eq!(counter.references, 2);
    assert_eq!(counter.holes, 1);
    assert_eq!(counter.calls_entered, 1);
    assert_eq!(counter.calls_exited, 1);
}

#[test]
fn walker_visits_every_item_of_a_vec_an_option_and_a_box() {
    let items = vec![Expr::Hole(Location::CallSite), Expr::Hole(Location::CallSite)];
    let mut counter = Counter::default();
    items.accept(&mut counter);
    Some(Box::new(Expr::Hole(Location::CallSite))).accept(&mut counter);
    None::<Expr>.accept(&mut counter);
    assert_eq!(counter.holes, 3);
}
