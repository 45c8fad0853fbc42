//! What lowering produces from each syntax node, up to name resolution: the
//! node kind, its range, and each child the lowering of the matching syntax
//! child, in order. Which definition a name resolves to is stated by the
//! lowering functions themselves.
use vstd::prelude::*;

use crate::hir::{
    Block, CallKind, Callee, Expr, HirLevel, MatchKind, Parameter, Pattern, Stmt, spec_expr_location,
    spec_pattern_location,
};
use crate::scope::ScopeKind;
use crate::syntax::{
    ArmBody, BinaryRhs, PiParameters, PrimaryChild, SigmaParameter, SyntaxArm, SyntaxBinary, SyntaxBlock, SyntaxExpr,
    SyntaxIf, SyntaxMatch, SyntaxParameter, SyntaxPattern, SyntaxPi, SyntaxPrimary, SyntaxSigma, SyntaxStmt,
};
use crate::hir::MatchArm;

verus! {

pub open spec fn pattern_lowers(t: SyntaxPattern, p: Pattern) -> bool
    decreases t,
{
    match t {
        SyntaxPattern::Literal(l, range) => p == Pattern::Literal(l, range),
        SyntaxPattern::Wildcard(range) => p == Pattern::Wildcard(range),
        SyntaxPattern::Rest(range) => p == Pattern::Rest(range),
        SyntaxPattern::Binding(ident) => match p {
            Pattern::Binding(_, location) => location == ident.range,
            _ => false,
        },
        SyntaxPattern::Constructor(path, arguments, range) => match p {
            Pattern::Constructor(reference, lowered, location) => location == range && reference.location == path.range
                && !reference.is_type_level && patterns_lower(arguments@, lowered@),
            _ => false,
        },
    }
}

pub open spec fn patterns_lower(ts: Seq<SyntaxPattern>, ps: Seq<Pattern>) -> bool
    decreases ts,
{
    ts.len() == ps.len() && (ts.len() > 0 ==> patterns_lower(ts.subrange(0, ts.len() - 1), ps.subrange(0, ps.len() - 1))
        && pattern_lowers(ts[ts.len() - 1], ps[ps.len() - 1]))
}

/// The unit value `()` at a location.
pub open spec fn is_unit_call(e: Expr, location: crate::hir::Location) -> bool {
    match e {
        Expr::Call(c) => c.kind == CallKind::Prefix && c.callee == Callee::Unit && c.arguments@.len() == 0
            && c.do_notation.is_none() && c.location == location,
        _ => false,
    }
}

pub open spec fn expr_lowers(t: SyntaxExpr, level: HirLevel, e: Expr) -> bool
    decreases t,
{
    match t {
        SyntaxExpr::Primary(p) => primary_lowers(*p, level, e),
        SyntaxExpr::Ann(a) => match e {
            Expr::Ann(x) => x.location == a.range && expr_lowers(a.value, level, *x.value) && expr_lowers(
                a.against,
                HirLevel::Type,
                *x.type_rep.expr,
            ),
            _ => false,
        },
        SyntaxExpr::App(a) => match e {
            Expr::Call(c) => c.kind == CallKind::Infix && c.location == a.range && (match c.callee {
                Callee::Expr(callee) => primary_lowers(a.callee, level, *callee),
                _ => false,
            }) && primaries_lower(a.arguments@, level, c.arguments@) && (if a.blocks@.len() == 0 {
                c.do_notation.is_none()
            } else {
                match c.do_notation {
                    Some(b) => block_lowers(a.blocks@[a.blocks@.len() - 1], level, b),
                    None => false,
                }
            }),
            _ => false,
        },
        SyntaxExpr::TypeApp(a) => match e {
            Expr::Call(c) => c.kind == CallKind::Prefix && c.location == a.range && c.do_notation.is_none() && (match c.callee {
                Callee::Expr(callee) => primary_lowers(a.callee, HirLevel::Type, *callee),
                _ => false,
            }) && primaries_lower(a.arguments@, HirLevel::Type, c.arguments@),
            _ => false,
        },
        SyntaxExpr::Binary(b) => binary_lowers(*b, level, e),
        SyntaxExpr::Lam(l) => match e {
            Expr::Lam(x) => x.location == l.range && x.scope.kind == ScopeKind::Lambda && patterns_lower(
                l.parameters@,
                x.parameters@,
            ) && expr_lowers(l.value, level, *x.value),
            _ => false,
        },
        SyntaxExpr::Match(m) => match_lowers(*m, level, e),
        SyntaxExpr::Pi(p) => pi_lowers(*p, e),
        SyntaxExpr::Sigma(s) => sigma_lowers(*s, e),
    }
}

pub open spec fn exprs_lower(ts: Seq<SyntaxExpr>, level: HirLevel, es: Seq<Expr>) -> bool
    decreases ts,
{
    ts.len() == es.len() && (ts.len() > 0 ==> exprs_lower(ts.subrange(0, ts.len() - 1), level, es.subrange(0, es.len() - 1))
        && expr_lowers(ts[ts.len() - 1], level, es[es.len() - 1]))
}

pub open spec fn primaries_lower(ts: Seq<SyntaxPrimary>, level: HirLevel, es: Seq<Expr>) -> bool
    decreases ts,
{
    ts.len() == es.len() && (ts.len() > 0 ==> primaries_lower(
        ts.subrange(0, ts.len() - 1),
        level,
        es.subrange(0, es.len() - 1),
    ) && primary_lowers(ts[ts.len() - 1], level, es[es.len() - 1]))
}

pub open spec fn primary_lowers(p: SyntaxPrimary, level: HirLevel, e: Expr) -> bool
    decreases p,
{
    match p.child {
        PrimaryChild::Array(a) => match e {
            Expr::Call(c) => c.kind == CallKind::Prefix && c.callee == Callee::Array && c.do_notation.is_none()
                && c.location == a.range && exprs_lower(a.items@, level, c.arguments@),
            _ => false,
        },
        PrimaryChild::Tuple(a) => match e {
            Expr::Call(c) => c.kind == CallKind::Prefix && c.callee == Callee::Tuple && c.do_notation.is_none()
                && c.location == a.range && exprs_lower(a.items@, level, c.arguments@),
            _ => false,
        },
        PrimaryChild::If(i) => if_lowers(*i, level, e),
        PrimaryChild::Literal(l) => e == Expr::Literal(l, p.range),
        PrimaryChild::Match(m) => match_lowers(*m, level, e),
        PrimaryChild::Path(path) => match e {
            Expr::Path(r) => r.location == path.range && r.is_type_level == (level == HirLevel::Type),
            _ => false,
        },
        PrimaryChild::Return(ret) => match e {
            Expr::Call(c) => c.kind == CallKind::Prefix && c.callee == Callee::Pure && c.do_notation.is_none()
                && c.location == ret.range && c.arguments@.len() == 1 && match ret.value {
                Some(v) => expr_lowers(*v, level, c.arguments@[0]),
                None => is_unit_call(c.arguments@[0], ret.range),
            },
            _ => false,
        },
        PrimaryChild::FreeVariable(ident) => match e {
            Expr::Path(r) => r.location == ident.range && r.is_type_level,
            _ => false,
        },
        PrimaryChild::Universe => e == Expr::Type(crate::hir::BuiltinType::Universe, p.range),
    }
}

pub open spec fn binary_lowers(b: SyntaxBinary, level: HirLevel, e: Expr) -> bool
    decreases b,
{
    match e {
        Expr::Call(c) => c.kind == CallKind::Infix && c.location == b.range && c.do_notation.is_none() && (match c.callee {
            Callee::Reference(r) => r.location == b.range && r.is_type_level == (level == HirLevel::Type),
            _ => false,
        }) && c.arguments@.len() == 2 && expr_lowers(b.lhs, level, c.arguments@[0]) && match b.rhs {
            BinaryRhs::Binary(rhs) => binary_lowers(*rhs, level, c.arguments@[1]),
            BinaryRhs::Primary(rhs) => primary_lowers(*rhs, level, c.arguments@[1]),
        },
        _ => false,
    }
}

/// A match arm's or an if branch's body: a block becomes a unit call whose
/// do-notation is the lowered block.
pub open spec fn arm_body_lowers(a: ArmBody, level: HirLevel, e: Expr) -> bool
    decreases a,
{
    match a {
        ArmBody::Block(b) => match e {
            Expr::Call(c) => c.kind == CallKind::Prefix && c.callee == Callee::Unit && c.arguments@.len() == 0
                && c.location == b.range && match c.do_notation {
                Some(bl) => block_lowers(b, level, bl),
                None => false,
            },
            _ => false,
        },
        ArmBody::Expr(x) => expr_lowers(x, level, e),
    }
}

pub open spec fn if_lowers(i: SyntaxIf, level: HirLevel, e: Expr) -> bool
    decreases i,
{
    match e {
        Expr::Match(m) => m.kind == MatchKind::If && m.location == i.range && expr_lowers(i.condition, level, *m.scrutinee)
            && m.clauses@.len() == 2 && m.clauses@[0].pattern == Pattern::Literal(
            crate::hir::Literal::Bool(true),
            crate::hir::Location::CallSite,
        ) && m.clauses@[1].pattern == Pattern::Literal(
            crate::hir::Literal::Bool(false),
            crate::hir::Location::CallSite,
        ) && arm_body_lowers(i.consequence, level, m.clauses@[0].value) && arm_body_lowers(
            i.otherwise,
            level,
            m.clauses@[1].value,
        ) && m.clauses@[0].location == spec_expr_location(m.clauses@[0].value) && m.clauses@[1].location
            == spec_expr_location(m.clauses@[1].value),
        _ => false,
    }
}

pub open spec fn arm_lowers(a: SyntaxArm, level: HirLevel, m: MatchArm) -> bool
    decreases a,
{
    m.location == a.range && pattern_lowers(a.pattern, m.pattern) && arm_body_lowers(a.body, level, m.value)
}

pub open spec fn arms_lower(ts: Seq<SyntaxArm>, level: HirLevel, ms: Seq<MatchArm>) -> bool
    decreases ts,
{
    ts.len() == ms.len() && (ts.len() > 0 ==> arms_lower(ts.subrange(0, ts.len() - 1), level, ms.subrange(0, ms.len() - 1))
        && arm_lowers(ts[ts.len() - 1], level, ms[ms.len() - 1]))
}

pub open spec fn match_lowers(m: SyntaxMatch, level: HirLevel, e: Expr) -> bool
    decreases m,
{
    match e {
        Expr::Match(x) => x.kind == MatchKind::Match && x.location == m.range && expr_lowers(m.scrutinee, level, *x.scrutinee)
            && arms_lower(m.arms@, level, x.clauses@),
        _ => false,
    }
}

pub open spec fn stmt_lowers(s: SyntaxStmt, level: HirLevel, st: Stmt) -> bool
    decreases s,
{
    match s {
        SyntaxStmt::Let(p, x) => match st {
            Stmt::Let(pp, xx) => pattern_lowers(p, pp) && expr_lowers(x, level, xx),
            _ => false,
        },
        SyntaxStmt::Ask(p, x) => match st {
            Stmt::Ask(pp, xx) => pattern_lowers(p, pp) && expr_lowers(x, level, xx),
            _ => false,
        },
        SyntaxStmt::Expr(x) => match st {
            Stmt::Downgrade(xx) => expr_lowers(x, level, xx),
            _ => false,
        },
    }
}

pub open spec fn stmts_lower(ts: Seq<SyntaxStmt>, level: HirLevel, ss: Seq<Stmt>) -> bool
    decreases ts,
{
    ts.len() == ss.len() && (ts.len() > 0 ==> stmts_lower(ts.subrange(0, ts.len() - 1), level, ss.subrange(0, ss.len() - 1))
        && stmt_lowers(ts[ts.len() - 1], level, ss[ss.len() - 1]))
}

pub open spec fn block_lowers(b: SyntaxBlock, level: HirLevel, bl: Block) -> bool
    decreases b,
{
    bl.location == b.range && stmts_lower(b.statements@, level, bl.statements@)
}

pub open spec fn parameter_lowers(t: SyntaxParameter, is_implicit: bool, p: Parameter) -> bool
    decreases t,
{
    p.is_implicit == is_implicit && p.rigid && p.level == HirLevel::Type && p.location == t.range && pattern_lowers(
        t.pattern,
        p.binding,
    ) && expr_lowers(t.type_rep, HirLevel::Type, *p.type_rep.expr)
}

pub open spec fn parameters_lower(ts: Seq<SyntaxParameter>, is_implicit: bool, ps: Seq<Parameter>) -> bool
    decreases ts,
{
    ts.len() == ps.len() && (ts.len() > 0 ==> parameters_lower(
        ts.subrange(0, ts.len() - 1),
        is_implicit,
        ps.subrange(0, ps.len() - 1),
    ) && parameter_lowers(ts[ts.len() - 1], is_implicit, ps[ps.len() - 1]))
}

pub open spec fn pi_lowers(t: SyntaxPi, e: Expr) -> bool
    decreases t,
{
    match e {
        Expr::Pi(p) => p.location == t.range && expr_lowers(t.value, HirLevel::Type, *p.value.expr) && match t.parameter {
            PiParameters::Explicit(ps) => parameters_lower(ps@, false, p.parameters@),
            PiParameters::Forall(ps) => parameters_lower(ps@, true, p.parameters@),
            PiParameters::Bare(ty) => p.parameters@.len() == 1 && p.parameters@[0].binding == Pattern::Empty
                && !p.parameters@[0].is_implicit && !p.parameters@[0].rigid && p.parameters@[0].level == HirLevel::Type
                && p.parameters@[0].location == t.range && expr_lowers(
                ty,
                HirLevel::Type,
                *p.parameters@[0].type_rep.expr,
            ),
        },
        _ => false,
    }
}

pub open spec fn sigma_parameter_lowers(t: SigmaParameter, p: Parameter) -> bool
    decreases t,
{
    match t {
        SigmaParameter::Parameter(sp) => parameter_lowers(sp, true, p),
        SigmaParameter::Pattern(sp) => pattern_lowers(sp, p.binding) && p.is_implicit && !p.rigid && p.level
            == HirLevel::Type && p.location == spec_pattern_location(p.binding) && *p.type_rep.expr == Expr::Hole(
            p.location,
        ),
    }
}

pub open spec fn sigma_parameters_lower(ts: Seq<SigmaParameter>, ps: Seq<Parameter>) -> bool
    decreases ts,
{
    ts.len() == ps.len() && (ts.len() > 0 ==> sigma_parameters_lower(
        ts.subrange(0, ts.len() - 1),
        ps.subrange(0, ps.len() - 1),
    ) && sigma_parameter_lowers(ts[ts.len() - 1], ps[ps.len() - 1]))
}

pub open spec fn sigma_lowers(t: SyntaxSigma, e: Expr) -> bool
    decreases t,
{
    match e {
        Expr::Sigma(p) => p.location == t.range && expr_lowers(t.value, HirLevel::Type, *p.value.expr)
            && sigma_parameters_lower(t.parameters@, p.parameters@),
        _ => false,
    }
}

} // verus!
