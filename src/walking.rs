//! Traversal of the high-level representation. A listener is told when the
//! walk enters and leaves each node; every hook does nothing unless the
//! listener overrides it.
use vstd::prelude::*;

use crate::hir::{
    AnnExpr, Block, BuiltinType, CallExpr, Callee, Expr, LamExpr, Literal, Location, MatchExpr, Pattern, Pi,
    Reference, Stmt, TypeRep,
};

verus! {

pub trait HirListener {
    fn visit_reference(&mut self, reference: Reference) {
    }

    fn visit_type(&mut self, definition: BuiltinType, location: Location) {
    }

    fn visit_hole(&mut self, location: Location) {
    }

    fn visit_empty_expr(&mut self) {
    }

    fn enter_path_expr(&mut self, reference: Reference) {
    }

    fn exit_path_expr(&mut self, reference: Reference) {
    }

    fn enter_literal_expr(&mut self, literal: &Literal, location: Location) {
    }

    fn exit_literal_expr(&mut self, literal: &Literal, location: Location) {
    }

    fn enter_call_expr(&mut self, call: &CallExpr) {
    }

    fn exit_call_expr(&mut self, call: &CallExpr) {
    }

    fn enter_ann_expr(&mut self, ann: &AnnExpr) {
    }

    fn exit_ann_expr(&mut self, ann: &AnnExpr) {
    }

    fn enter_lam_expr(&mut self, lam: &LamExpr) {
    }

    fn exit_lam_expr(&mut self, lam: &LamExpr) {
    }

    fn enter_match_expr(&mut self, m: &MatchExpr) {
    }

    fn exit_match_expr(&mut self, m: &MatchExpr) {
    }

    fn enter_upgrade_expr(&mut self, type_rep: &TypeRep) {
    }

    fn enter_pi(&mut self, pi: &Pi) {
    }

    fn exit_pi(&mut self, pi: &Pi) {
    }

    fn enter_sigma(&mut self, sigma: &Pi) {
    }

    fn exit_sigma(&mut self, sigma: &Pi) {
    }

    fn visit_empty_stmt(&mut self) {
    }

    fn enter_let_stmt(&mut self, pattern: &Pattern, value: &Expr) {
    }

    fn exit_let_stmt(&mut self, pattern: &Pattern, value: &Expr) {
    }

    fn enter_ask_stmt(&mut self, pattern: &Pattern, value: &Expr) {
    }

    fn exit_ask_stmt(&mut self, pattern: &Pattern, value: &Expr) {
    }

    fn enter_downgrade_stmt(&mut self, expr: &Expr) {
    }

    fn exit_downgrade_stmt(&mut self, expr: &Expr) {
    }

    fn enter_block(&mut self, block: &Block) {
    }

    fn exit_block(&mut self, block: &Block) {
    }

    fn visit_empty_pattern(&mut self) {
    }

    fn enter_literal_pattern(&mut self, literal: &Literal, location: Location) {
    }

    fn exit_literal_pattern(&mut self, literal: &Literal, location: Location) {
    }

    fn enter_wildcard_pattern(&mut self, location: Location) {
    }

    fn exit_wildcard_pattern(&mut self, location: Location) {
    }

    fn enter_rest_pattern(&mut self, location: Location) {
    }

    fn exit_rest_pattern(&mut self, location: Location) {
    }

    fn enter_constructor_pattern(&mut self, reference: Reference, arguments: &Vec<Pattern>) {
    }

    fn exit_constructor_pattern(&mut self, reference: Reference, arguments: &Vec<Pattern>) {
    }

    fn enter_binding_pattern(&mut self, pattern: &Pattern) {
    }

    fn exit_binding_pattern(&mut self, pattern: &Pattern) {
    }
}

/// A node the walk can visit, with everything beneath it.
pub trait Walker {
    fn accept<T: HirListener>(&self, listener: &mut T);
}

pub fn walk_pattern<T: HirListener>(pattern: &Pattern, listener: &mut T)
    decreases pattern,
{
    match pattern {
        Pattern::Empty => listener.visit_empty_pattern(),
        Pattern::Literal(l, location) => {
            listener.enter_literal_pattern(l, *location);
            listener.exit_literal_pattern(l, *location);
        },
        Pattern::Wildcard(location) => {
            listener.enter_wildcard_pattern(*location);
            listener.exit_wildcard_pattern(*location);
        },
        Pattern::Rest(location) => {
            listener.enter_rest_pattern(*location);
            listener.exit_rest_pattern(*location);
        },
        Pattern::Constructor(reference, arguments, _) => {
            listener.enter_constructor_pattern(*reference, arguments);
            listener.visit_reference(*reference);
            let mut i: usize = 0;
            while i < arguments.len()
                invariant
                    i <= arguments@.len(),
                    *pattern is Constructor,
                    pattern->Constructor_1 == *arguments,
                decreases arguments@.len() - i,
            {
                proof {
                    assert(decreases_to!(*pattern => pattern->Constructor_1));
                    assert(decreases_to!(pattern->Constructor_1 => pattern->Constructor_1@));
                    assert(decreases_to!(pattern->Constructor_1@ => arguments@[i as int]));
                }
                walk_pattern(&arguments[i], listener);
                i = i + 1;
            }
            listener.exit_constructor_pattern(*reference, arguments);
        },
        Pattern::Binding(_, _) => {
            listener.enter_binding_pattern(pattern);
            listener.exit_binding_pattern(pattern);
        },
    }
}

pub fn walk_block<T: HirListener>(block: &Block, listener: &mut T)
    decreases block,
{
    listener.enter_block(block);
    let mut i: usize = 0;
    while i < block.statements.len()
        invariant
            i <= block.statements@.len(),
        decreases block.statements@.len() - i,
    {
        match &block.statements[i] {
            Stmt::Empty => listener.visit_empty_stmt(),
            Stmt::Let(pattern, value) => {
                listener.enter_let_stmt(pattern, value);
                walk_pattern(pattern, listener);
                walk_expr(value, listener);
                listener.exit_let_stmt(pattern, value);
            },
            Stmt::Ask(pattern, value) => {
                listener.enter_ask_stmt(pattern, value);
                walk_pattern(pattern, listener);
                walk_expr(value, listener);
                listener.exit_ask_stmt(pattern, value);
            },
            Stmt::Downgrade(value) => {
                listener.enter_downgrade_stmt(value);
                walk_expr(value, listener);
                listener.exit_downgrade_stmt(value);
            },
        }
        i = i + 1;
    }
    listener.exit_block(block);
}

fn walk_exprs<T: HirListener>(exprs: &Vec<Expr>, listener: &mut T)
    decreases exprs,
{
    let mut i: usize = 0;
    while i < exprs.len()
        invariant
            i <= exprs@.len(),
        decreases exprs@.len() - i,
    {
        walk_expr(&exprs[i], listener);
        i = i + 1;
    }
}

fn walk_pi<T: HirListener>(pi: &Pi, listener: &mut T)
    decreases pi,
{
    let mut i: usize = 0;
    while i < pi.parameters.len()
        invariant
            i <= pi.parameters@.len(),
        decreases pi.parameters@.len() - i,
    {
        let parameter = &pi.parameters[i];
        walk_pattern(&parameter.binding, listener);
        walk_expr(&parameter.type_rep.expr, listener);
        i = i + 1;
    }
    walk_expr(&pi.value.expr, listener);
}

/// Walks an expression and everything beneath it, in source order.
pub fn walk_expr<T: HirListener>(expr: &Expr, listener: &mut T)
    decreases expr,
{
    match expr {
        Expr::Empty => listener.visit_empty_expr(),
        Expr::Error(_) => {},
        Expr::Path(reference) => {
            listener.enter_path_expr(*reference);
            listener.visit_reference(*reference);
            listener.exit_path_expr(*reference);
        },
        Expr::Literal(l, location) => {
            listener.enter_literal_expr(l, *location);
            listener.exit_literal_expr(l, *location);
        },
        Expr::Type(definition, location) => listener.visit_type(*definition, *location),
        Expr::Call(call) => {
            listener.enter_call_expr(call);
            match &call.callee {
                Callee::Reference(reference) => listener.visit_reference(*reference),
                Callee::Expr(callee) => walk_expr(callee, listener),
                _ => {},
            }
            walk_exprs(&call.arguments, listener);
            match &call.do_notation {
                Some(block) => walk_block(block, listener),
                None => {},
            }
            listener.exit_call_expr(call);
        },
        Expr::Ann(ann) => {
            listener.enter_ann_expr(ann);
            walk_expr(&ann.value, listener);
            walk_expr(&ann.type_rep.expr, listener);
            listener.exit_ann_expr(ann);
        },
        Expr::Lam(lam) => {
            listener.enter_lam_expr(lam);
            let mut i: usize = 0;
            while i < lam.parameters.len()
                invariant
                    i <= lam.parameters@.len(),
                decreases lam.parameters@.len() - i,
            {
                walk_pattern(&lam.parameters[i], listener);
                i = i + 1;
            }
            walk_expr(&lam.value, listener);
            listener.exit_lam_expr(lam);
        },
        Expr::Match(m) => {
            listener.enter_match_expr(m);
            walk_expr(&m.scrutinee, listener);
            let mut i: usize = 0;
            while i < m.clauses.len()
                invariant
                    i <= m.clauses@.len(),
                    *expr is Match,
                    expr->Match_0 == *m,
                decreases m.clauses@.len() - i,
            {
                proof {
                    assert(decreases_to!(*expr => expr->Match_0));
                    assert(decreases_to!(expr->Match_0 => m.clauses));
                    assert(decreases_to!(m.clauses => m.clauses@));
                    assert(decreases_to!(m.clauses@ => m.clauses@[i as int]));
                    assert(decreases_to!(m.clauses@[i as int] => m.clauses@[i as int].value));
                }
                walk_pattern(&m.clauses[i].pattern, listener);
                walk_expr(&m.clauses[i].value, listener);
                i = i + 1;
            }
            listener.exit_match_expr(m);
        },
        Expr::Upgrade(type_rep) => {
            listener.enter_upgrade_expr(type_rep);
            walk_expr(&type_rep.expr, listener);
        },
        Expr::Pi(pi) => {
            listener.enter_pi(pi);
            walk_pi(pi, listener);
            listener.exit_pi(pi);
        },
        Expr::Sigma(sigma) => {
            listener.enter_sigma(sigma);
            walk_pi(sigma, listener);
            listener.exit_sigma(sigma);
        },
        Expr::Hole(location) => listener.visit_hole(*location),
    }
}

impl Walker for Expr {
    fn accept<T: HirListener>(&self, listener: &mut T) {
        walk_expr(self, listener)
    }
}

impl Walker for TypeRep {
    fn accept<T: HirListener>(&self, listener: &mut T) {
        walk_expr(&self.expr, listener)
    }
}

impl Walker for Pattern {
    fn accept<T: HirListener>(&self, listener: &mut T) {
        walk_pattern(self, listener)
    }
}

impl Walker for Block {
    fn accept<T: HirListener>(&self, listener: &mut T) {
        walk_block(self, listener)
    }
}

impl<W: Walker> Walker for Vec<W> {
    fn accept<T: HirListener>(&self, listener: &mut T) {
        let mut i: usize = 0;
        while i < self.len()
            invariant
                i <= self@.len(),
            decreases self@.len() - i,
        {
            self[i].accept(listener);
            i = i + 1;
        }
    }
}

impl<W: Walker> Walker for Option<W> {
    fn accept<T: HirListener>(&self, listener: &mut T) {
        match self {
            Some(item) => item.accept(listener),
            None => {},
        }
    }
}

impl<W: Walker> Walker for Box<W> {
    fn accept<T: HirListener>(&self, listener: &mut T) {
        (**self).accept(listener)
    }
}

} // verus!
