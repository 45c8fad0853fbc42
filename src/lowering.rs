//! Lowering of syntax trees to the high-level representation: one function
//! per syntactic category. Names are resolved through the scope chain, then
//! the package's globals, then (for types) the primitive registry; an
//! unresolved name is reported and lowered to a placeholder, so lowering
//! always produces a complete tree. Each function's result is the lowering of
//! its syntax node in the sense of `crate::lowered`.
use vstd::prelude::*;

use crate::db::{HirDb, Jar, find_in};
use crate::hir::{
    AnnExpr, Block, BuiltinType, CallExpr, CallKind, Callee, Definition, DefinitionKind, Expr, HirLevel, LamExpr,
    Literal, Location, MatchArm, MatchExpr, MatchKind, Parameter, Pattern, Pi, Reference, Stmt, TypeRep,
};
use crate::lowered::{
    arm_body_lowers, arm_lowers, arms_lower, binary_lowers, block_lowers, expr_lowers, exprs_lower, if_lowers,
    match_lowers, parameter_lowers, parameters_lower, pattern_lowers, patterns_lower, pi_lowers, primaries_lower,
    primary_lowers, sigma_lowers, sigma_parameter_lowers, sigma_parameters_lower, stmt_lowers, stmts_lower,
};
use crate::scope::{Binding, Scope, ScopeKind, lookup_local};
use crate::syntax::{
    ArmBody, BinaryRhs, PiParameters, PrimaryChild, SigmaParameter, SyntaxAnn, SyntaxApp, SyntaxArray, SyntaxBinary,
    SyntaxBlock, SyntaxExpr, SyntaxIf, SyntaxLam, SyntaxMatch, SyntaxParameter, SyntaxPath, SyntaxPattern, SyntaxPi,
    SyntaxPrimary, SyntaxReturn, SyntaxSigma, SyntaxStmt, SyntaxTuple, SyntaxTypeApp,
};

verus! {

#[derive(Clone, Copy, Debug, PartialEq, Eq, Structural)]
pub enum HirErrorKind {
    /// A name that no scope, global or primitive defines.
    Unresolved,
    /// A `return` outside any do-notation block.
    ReturnOutsideDoNotation,
    /// An application with more than one trailing block; the last is taken.
    AmbiguousDoNotation,
}

#[derive(Clone, Copy, Debug, PartialEq, Eq, Structural)]
pub struct HirError {
    pub label: Location,
    pub kind: HirErrorKind,
}

/// The lowering state: the session database, the active scope chain and the
/// diagnostics reported so far.
pub struct HirLowering {
    pub db: Jar,
    pub scope: Scope,
    pub diagnostics: Vec<HirError>,
}

/// How a path is resolved when no scope binds it: functions at the
/// expression level, types at the type level.
pub open spec fn level_kind(level: HirLevel) -> DefinitionKind {
    match level {
        HirLevel::Expr => DefinitionKind::Function,
        HirLevel::Type => DefinitionKind::Type,
    }
}

/// How a path lowers from the state `before` to `after`: to the innermost
/// local binding, else the global definition of the level's kind, else, at
/// the type level, the canonical definition of a registered primitive type;
/// each of these with no diagnostic. Otherwise it lowers to a reference to
/// the unresolved placeholder, with exactly one `Unresolved` diagnostic at
/// the path's range.
pub open spec fn path_lowers(before: HirLowering, after: HirLowering, path: SyntaxPath, level: HirLevel, r: Expr) -> bool {
    let name = path.name@;
    let type_level = level == HirLevel::Type;
    let names = before.db.primitives.names();
    match lookup_local(before.scope.frames@, name) {
        Some(d) => r == Expr::Path(Reference { definition: d, is_type_level: type_level, location: path.range })
            && after.diagnostics == before.diagnostics,
        None => match find_in(before.db.globals@, name, level_kind(level)) {
            Some(d) => r == Expr::Path(Reference { definition: d, is_type_level: type_level, location: path.range })
                && after.diagnostics == before.diagnostics,
            None => if type_level && names.contains_key(name) {
                r == Expr::Path(
                    Reference {
                        definition: crate::primitives::primitive_definition(names[name]),
                        is_type_level: true,
                        location: path.range,
                    },
                ) && after.diagnostics == before.diagnostics
            } else {
                r == Expr::Path(
                    Reference {
                        definition: Definition { id: 0, kind: level_kind(level), location: path.range, resolved: false },
                        is_type_level: type_level,
                        location: path.range,
                    },
                ) && after.diagnostics@ == before.diagnostics@.push(
                    HirError { label: path.range, kind: HirErrorKind::Unresolved },
                )
            },
        },
    }
}

impl HirLowering {
    pub open spec fn wf(&self) -> bool {
        self.db.wf() && self.scope.wf()
    }

    /// What every lowering step keeps: the frames below the current one and
    /// the current frame's kind (forks and pops balance), the globals and the
    /// primitives, and the diagnostics already reported.
    pub open spec fn preserves(&self, after: &HirLowering) -> bool {
        &&& after.wf()
        &&& after.scope.frames@.len() == self.scope.frames@.len()
        &&& after.scope.frames@.drop_last() == self.scope.frames@.drop_last()
        &&& after.scope.frames@.last().kind == self.scope.frames@.last().kind
        &&& after.db.globals == self.db.globals
        &&& after.db.primitives == self.db.primitives
        &&& self.diagnostics@.len() <= after.diagnostics@.len()
        &&& forall|i: int| 0 <= i < self.diagnostics@.len() ==> #[trigger] after.diagnostics@[i] == self.diagnostics@[i]
    }

    pub fn new(db: Jar) -> (r: HirLowering)
        requires
            db.wf(),
        ensures
            r.wf(),
            r.db == db,
            r.scope.frames@.len() == 1,
            crate::scope::is_fresh_frame(r.scope.frames@[0], ScopeKind::Root),
            r.diagnostics@.len() == 0,
    {
        HirLowering { db, scope: Scope::new(), diagnostics: Vec::new() }
    }

    fn report(&mut self, label: Location, kind: HirErrorKind)
        requires
            old(self).wf(),
        ensures
            old(self).preserves(final(self)),
            final(self).scope.frames@ == old(self).scope.frames@,
            final(self).diagnostics@ == old(self).diagnostics@.push(HirError { label, kind }),
    {
        self.diagnostics.push(HirError { label, kind });
    }

    /// Resolves a name of the given kind: the innermost local binding, else
    /// the package's global definition; otherwise the name is reported as
    /// unresolved and a placeholder is returned.
    fn qualify(&mut self, name: &String, kind: DefinitionKind, location: Location) -> (r: Definition)
        requires
            old(self).wf(),
        ensures
            old(self).preserves(final(self)),
            final(self).scope.frames@ == old(self).scope.frames@,
            match lookup_local(old(self).scope.frames@, name@) {
                Some(d) => r == d && final(self).diagnostics == old(self).diagnostics,
                None => match find_in(old(self).db.globals@, name@, kind) {
                    Some(d) => r == d && final(self).diagnostics == old(self).diagnostics,
                    None => r == (Definition { id: 0, kind, location, resolved: false })
                        && final(self).diagnostics@ == old(self).diagnostics@.push(
                        HirError { label: location, kind: HirErrorKind::Unresolved },
                    ),
                },
            },
    {
        match self.scope.lookup(name) {
            Some(d) => d,
            None => match self.db.find_definition(name, kind) {
                Some(d) => d,
                None => {
                    self.report(location, HirErrorKind::Unresolved);
                    Definition::unresolved(kind, location)
                },
            },
        }
    }

    /// Binds a new local definition named `name` in the current frame.
    fn bind_local(&mut self, name: &String, location: Location) -> (r: Definition)
        requires
            old(self).wf(),
        ensures
            old(self).preserves(final(self)),
            final(self).diagnostics == old(self).diagnostics,
            final(self).scope.current().bindings@ == old(self).scope.current().bindings@.push(
                Binding { name: *name, definition: r },
            ),
            r.kind == DefinitionKind::Function,
            r.location == location,
    {
        let definition = self.db.fresh_definition(DefinitionKind::Function, location);
        self.scope.define(name.clone(), definition);
        definition
    }

    /// Lowers a pattern, binding the names it introduces in the current
    /// frame.
    pub fn pattern(&mut self, tree: &SyntaxPattern) -> (r: Pattern)
        requires
            old(self).wf(),
        ensures
            old(self).preserves(final(self)),
            pattern_lowers(*tree, r),
            match *tree {
                SyntaxPattern::Binding(ident) => match r {
                    Pattern::Binding(d, _) => final(self).scope.current().bindings@ == old(
                        self,
                    ).scope.current().bindings@.push(Binding { name: ident.name, definition: d }),
                    _ => false,
                },
                SyntaxPattern::Constructor(_, _, _) => true,
                _ => final(self).scope.frames@ == old(self).scope.frames@ && final(self).diagnostics
                    == old(self).diagnostics,
            },
        decreases tree,
    {
        match tree {
            SyntaxPattern::Literal(l, range) => Pattern::Literal(l.copy(), *range),
            SyntaxPattern::Wildcard(range) => Pattern::Wildcard(*range),
            SyntaxPattern::Rest(range) => Pattern::Rest(*range),
            SyntaxPattern::Binding(ident) => {
                let definition = self.bind_local(&ident.name, ident.range);
                Pattern::Binding(definition, ident.range)
            },
            SyntaxPattern::Constructor(path, arguments, range) => {
                let definition = self.qualify(&path.name, DefinitionKind::Constructor, path.range);
                let reference = self.scope.using(definition, path.range, false);
                let ghost start = *self;
                let mut lowered: Vec<Pattern> = Vec::new();
                let mut i: usize = 0;
                proof {
                    assert(arguments@.take(0) =~= Seq::<SyntaxPattern>::empty());
                }
                while i < arguments.len()
                    invariant
                        start.wf(),
                        start.preserves(self),
                        i <= arguments@.len(),
                        *tree is Constructor,
                        tree->Constructor_1 == *arguments,
                        patterns_lower(arguments@.take(i as int), lowered@),
                    decreases arguments@.len() - i,
                {
                    proof {
                        assert(decreases_to!(*tree => tree->Constructor_1));
                        assert(decreases_to!(tree->Constructor_1 => tree->Constructor_1@));
                        assert(decreases_to!(tree->Constructor_1@ => arguments@[i as int]));
                    }
                    let p = self.pattern(&arguments[i]);
                    let ghost prev = lowered@;
                    lowered.push(p);
                    proof {
                        assert(arguments@.take(i + 1).subrange(0, i as int) =~= arguments@.take(i as int));
                        assert(lowered@.subrange(0, i as int) =~= prev);
                    }
                    i = i + 1;
                }
                proof {
                    assert(arguments@.take(arguments@.len() as int) =~= arguments@);
                }
                Pattern::Constructor(reference, lowered, *range)
            },
        }
    }

    /// Lowers a parameter of a pi or sigma type: its type, then its pattern.
    pub fn parameter(&mut self, tree: &SyntaxParameter, is_implicit: bool) -> (r: Parameter)
        requires
            old(self).wf(),
        ensures
            old(self).preserves(final(self)),
            parameter_lowers(*tree, is_implicit, r),
        decreases tree,
    {
        let type_rep = self.type_expr(&tree.type_rep);
        let binding = self.pattern(&tree.pattern);
        Parameter { binding, type_rep, is_implicit, rigid: true, level: HirLevel::Type, location: tree.range }
    }

    /// Lowers a block in a do-notation frame of its own.
    pub fn block(&mut self, tree: &SyntaxBlock, level: HirLevel) -> (r: Block)
        requires
            old(self).wf(),
        ensures
            old(self).preserves(final(self)),
            final(self).scope.frames@ == old(self).scope.frames@,
            block_lowers(*tree, level, r),
        decreases tree,
    {
        self.scope.fork(ScopeKind::DoNotation);
        let ghost start = *self;
        let mut statements: Vec<Stmt> = Vec::new();
        let mut i: usize = 0;
        proof {
            assert(tree.statements@.take(0) =~= Seq::<SyntaxStmt>::empty());
        }
        while i < tree.statements.len()
            invariant
                start.wf(),
                start.preserves(self),
                i <= tree.statements@.len(),
                stmts_lower(tree.statements@.take(i as int), level, statements@),
            decreases tree.statements@.len() - i,
        {
            let stmt = match &tree.statements[i] {
                SyntaxStmt::Let(pattern, value) => {
                    let value = self.expr(value, level);
                    let pattern = self.pattern(pattern);
                    Stmt::Let(pattern, value)
                },
                SyntaxStmt::Ask(pattern, value) => {
                    let value = self.expr(value, level);
                    let pattern = self.pattern(pattern);
                    Stmt::Ask(pattern, value)
                },
                SyntaxStmt::Expr(value) => Stmt::Downgrade(self.expr(value, level)),
            };
            proof {
                assert(stmt_lowers(tree.statements@[i as int], level, stmt));
            }
            let ghost prev = statements@;
            statements.push(stmt);
            proof {
                assert(tree.statements@.take(i + 1)[i as int] == tree.statements@[i as int]);
                assert(tree.statements@.take(i + 1).subrange(0, i as int) =~= tree.statements@.take(i as int));
                assert(statements@.subrange(0, i as int) =~= prev);
            }
            i = i + 1;
        }
        let _ = self.scope.pop();
        proof {
            assert(self.scope.frames@ =~= old(self).scope.frames@);
            assert(tree.statements@.take(tree.statements@.len() as int) =~= tree.statements@);
        }
        Block { statements, location: tree.range }
    }

    fn arm_body(&mut self, tree: &ArmBody, level: HirLevel) -> (r: Expr)
        requires
            old(self).wf(),
        ensures
            old(self).preserves(final(self)),
            arm_body_lowers(*tree, level, r),
        decreases tree,
    {
        match tree {
            ArmBody::Block(block) => Expr::block(self.block(block, level)),
            ArmBody::Expr(expr) => self.expr(expr, level),
        }
    }

    /// Lowers a type-level expression: pi, sigma and type applications
    /// directly, the term-level forms at the type level, wrapped.
    pub fn type_expr(&mut self, tree: &SyntaxExpr) -> (r: TypeRep)
        requires
            old(self).wf(),
        ensures
            old(self).preserves(final(self)),
            expr_lowers(*tree, HirLevel::Type, *r.expr),
        decreases tree,
    {
        match tree {
            SyntaxExpr::Primary(primary) => self.primary(primary, HirLevel::Type).upgrade(),
            SyntaxExpr::Ann(ann) => self.ann_expr(ann, HirLevel::Type).upgrade(),
            SyntaxExpr::Lam(lam) => self.lam_expr(lam, HirLevel::Type).upgrade(),
            SyntaxExpr::Match(m) => self.match_expr(m, HirLevel::Type).upgrade(),
            SyntaxExpr::Binary(binary) => self.binary_expr(binary, HirLevel::Type).upgrade(),
            SyntaxExpr::App(app) => self.app_expr(app, HirLevel::Type).upgrade(),
            SyntaxExpr::Pi(pi) => self.pi_expr(pi),
            SyntaxExpr::Sigma(sigma) => self.sigma_expr(sigma),
            SyntaxExpr::TypeApp(app) => self.type_app_expr(app),
        }
    }

    /// Lowers an expression at the given level. Type-level forms are
    /// unwrapped.
    pub fn expr(&mut self, tree: &SyntaxExpr, level: HirLevel) -> (r: Expr)
        requires
            old(self).wf(),
        ensures
            old(self).preserves(final(self)),
            expr_lowers(*tree, level, r),
        decreases tree,
    {
        match tree {
            SyntaxExpr::Primary(primary) => self.primary(primary, level),
            SyntaxExpr::Ann(ann) => self.ann_expr(ann, level),
            SyntaxExpr::Lam(lam) => self.lam_expr(lam, level),
            SyntaxExpr::Match(m) => self.match_expr(m, level),
            SyntaxExpr::Binary(binary) => self.binary_expr(binary, level),
            SyntaxExpr::App(app) => self.app_expr(app, level),
            SyntaxExpr::Pi(pi) => self.pi_expr(pi).downgrade(),
            SyntaxExpr::Sigma(sigma) => self.sigma_expr(sigma).downgrade(),
            SyntaxExpr::TypeApp(app) => self.type_app_expr(app).downgrade(),
        }
    }

    /// Lowers `value : type`.
    pub fn ann_expr(&mut self, tree: &SyntaxAnn, level: HirLevel) -> (r: Expr)
        requires
            old(self).wf(),
        ensures
            old(self).preserves(final(self)),
            r matches Expr::Ann(a) && a.location == tree.range && expr_lowers(tree.value, level, *a.value) && expr_lowers(
                tree.against,
                HirLevel::Type,
                *a.type_rep.expr,
            ),
        decreases tree,
    {
        let value = self.expr(&tree.value, level);
        let type_rep = self.type_expr(&tree.against);
        Expr::Ann(AnnExpr { value: Box::new(value), type_rep, location: tree.range })
    }

    /// Lowers `lhs op rhs` to an infix call of the operator's function-space
    /// definition, referenced at the expression's range.
    pub fn binary_expr(&mut self, tree: &SyntaxBinary, level: HirLevel) -> (r: Expr)
        requires
            old(self).wf(),
        ensures
            old(self).preserves(final(self)),
            binary_lowers(*tree, level, r),
            // The operator is resolved in function space once the operands are
            // lowered; an unknown operator is reported at its range.
            match r {
                Expr::Call(c) => match c.callee {
                    Callee::Reference(op) => match lookup_local(final(self).scope.frames@, tree.op.name@) {
                        Some(d) => op.definition == d,
                        None => match find_in(old(self).db.globals@, tree.op.name@, DefinitionKind::Function) {
                            Some(d) => op.definition == d,
                            None => op.definition == (Definition {
                                id: 0,
                                kind: DefinitionKind::Function,
                                location: tree.op.range,
                                resolved: false,
                            }) && final(self).diagnostics@.len() > old(self).diagnostics@.len()
                                && final(self).diagnostics@.last() == (HirError {
                                label: tree.op.range,
                                kind: HirErrorKind::Unresolved,
                            }),
                        },
                    },
                    _ => false,
                },
                _ => false,
            },
        decreases tree,
    {
        let lhs = self.expr(&tree.lhs, level);
        let rhs = match &tree.rhs {
            BinaryRhs::Binary(binary) => self.binary_expr(binary, level),
            BinaryRhs::Primary(primary) => self.primary(primary, level),
        };
        let location = tree.range;
        let op = self.qualify(&tree.op.name, DefinitionKind::Function, tree.op.range);
        let reference = self.scope.using(op, location, level == HirLevel::Type);
        let mut arguments: Vec<Expr> = Vec::new();
        arguments.push(lhs);
        arguments.push(rhs);
        Expr::Call(
            CallExpr {
                kind: CallKind::Infix,
                callee: Callee::Reference(reference),
                arguments,
                do_notation: None,
                location,
            },
        )
    }

    /// Lowers a lambda; its parameters are bound in a lambda frame of their
    /// own, which the resulting node keeps.
    pub fn lam_expr(&mut self, tree: &SyntaxLam, level: HirLevel) -> (r: Expr)
        requires
            old(self).wf(),
        ensures
            old(self).preserves(final(self)),
            final(self).scope.frames@ == old(self).scope.frames@,
            expr_lowers(SyntaxExpr::Lam(Box::new(*tree)), level, r),
        decreases tree,
    {
        self.scope.fork(ScopeKind::Lambda);
        let ghost start = *self;
        let mut parameters: Vec<Pattern> = Vec::new();
        let mut i: usize = 0;
        proof {
            assert(tree.parameters@.take(0) =~= Seq::<SyntaxPattern>::empty());
        }
        while i < tree.parameters.len()
            invariant
                start.wf(),
                start.preserves(self),
                i <= tree.parameters@.len(),
                patterns_lower(tree.parameters@.take(i as int), parameters@),
            decreases tree.parameters@.len() - i,
        {
            let p = self.pattern(&tree.parameters[i]);
            let ghost prev = parameters@;
            parameters.push(p);
            proof {
                assert(tree.parameters@.take(i + 1).subrange(0, i as int) =~= tree.parameters@.take(i as int));
                assert(parameters@.subrange(0, i as int) =~= prev);
            }
            i = i + 1;
        }
        let value = self.expr(&tree.value, level);
        let scope = self.scope.pop();
        proof {
            assert(self.scope.frames@ =~= old(self).scope.frames@);
            assert(tree.parameters@.take(tree.parameters@.len() as int) =~= tree.parameters@);
        }
        Expr::Lam(LamExpr { parameters, value: Box::new(value), location: tree.range, scope })
    }

    /// Lowers an application. Of the trailing blocks, the last one becomes
    /// the call's do-notation; more than one is reported.
    pub fn app_expr(&mut self, tree: &SyntaxApp, level: HirLevel) -> (r: Expr)
        requires
            old(self).wf(),
        ensures
            old(self).preserves(final(self)),
            expr_lowers(SyntaxExpr::App(Box::new(*tree)), level, r),
            tree.blocks@.len() > 1 ==> final(self).diagnostics@.len() > old(self).diagnostics@.len()
                && final(self).diagnostics@.last() == (HirError {
                label: tree.range,
                kind: HirErrorKind::AmbiguousDoNotation,
            }),
        decreases tree,
    {
        let callee = self.primary(&tree.callee, level);
        let ghost start = *self;
        let mut arguments: Vec<Expr> = Vec::new();
        let mut i: usize = 0;
        proof {
            assert(tree.arguments@.take(0) =~= Seq::<SyntaxPrimary>::empty());
        }
        while i < tree.arguments.len()
            invariant
                start.wf(),
                start.preserves(self),
                i <= tree.arguments@.len(),
                primaries_lower(tree.arguments@.take(i as int), level, arguments@),
            decreases tree.arguments@.len() - i,
        {
            let e = self.primary(&tree.arguments[i], level);
            let ghost prev = arguments@;
            arguments.push(e);
            proof {
                assert(tree.arguments@.take(i + 1).subrange(0, i as int) =~= tree.arguments@.take(i as int));
                assert(arguments@.subrange(0, i as int) =~= prev);
            }
            i = i + 1;
        }
        proof {
            assert(tree.arguments@.take(tree.arguments@.len() as int) =~= tree.arguments@);
        }
        let mut do_notation: Option<Block> = None;
        let mut j: usize = 0;
        while j < tree.blocks.len()
            invariant
                start.wf(),
                start.preserves(self),
                j <= tree.blocks@.len(),
                j == 0 ==> do_notation.is_none(),
                j > 0 ==> (match do_notation {
                    Some(b) => block_lowers(tree.blocks@[j - 1], level, b),
                    None => false,
                }),
            decreases tree.blocks@.len() - j,
        {
            let b = self.block(&tree.blocks[j], level);
            do_notation = Some(b);
            j = j + 1;
        }
        if tree.blocks.len() > 1 {
            self.report(tree.range, HirErrorKind::AmbiguousDoNotation);
        }
        Expr::Call(
            CallExpr {
                kind: CallKind::Infix,
                callee: Callee::Expr(Box::new(callee)),
                arguments,
                do_notation,
                location: tree.range,
            },
        )
    }

    /// Lowers a type-level application to a prefix call.
    pub fn type_app_expr(&mut self, tree: &SyntaxTypeApp) -> (r: TypeRep)
        requires
            old(self).wf(),
        ensures
            old(self).preserves(final(self)),
            expr_lowers(SyntaxExpr::TypeApp(Box::new(*tree)), HirLevel::Type, *r.expr),
        decreases tree,
    {
        let callee = self.primary(&tree.callee, HirLevel::Type).upgrade();
        let ghost start = *self;
        let mut arguments: Vec<Expr> = Vec::new();
        let mut i: usize = 0;
        proof {
            assert(tree.arguments@.take(0) =~= Seq::<SyntaxPrimary>::empty());
        }
        while i < tree.arguments.len()
            invariant
                start.wf(),
                start.preserves(self),
                i <= tree.arguments@.len(),
                primaries_lower(tree.arguments@.take(i as int), HirLevel::Type, arguments@),
            decreases tree.arguments@.len() - i,
        {
            let e = self.primary(&tree.arguments[i], HirLevel::Type).upgrade();
            let ghost prev = arguments@;
            arguments.push(e.downgrade());
            proof {
                assert(tree.arguments@.take(i + 1).subrange(0, i as int) =~= tree.arguments@.take(i as int));
                assert(arguments@.subrange(0, i as int) =~= prev);
            }
            i = i + 1;
        }
        proof {
            assert(tree.arguments@.take(tree.arguments@.len() as int) =~= tree.arguments@);
        }
        TypeRep {
            expr: Box::new(
                Expr::Call(
                    CallExpr {
                        kind: CallKind::Prefix,
                        callee: Callee::Expr(Box::new(callee.downgrade())),
                        arguments,
                        do_notation: None,
                        location: tree.range,
                    },
                ),
            ),
        }
    }

    fn parameters(&mut self, trees: &Vec<SyntaxParameter>, is_implicit: bool) -> (r: Vec<Parameter>)
        requires
            old(self).wf(),
        ensures
            old(self).preserves(final(self)),
            parameters_lower(trees@, is_implicit, r@),
        decreases trees,
    {
        let ghost start = *self;
        let mut parameters: Vec<Parameter> = Vec::new();
        let mut i: usize = 0;
        proof {
            assert(trees@.take(0) =~= Seq::<SyntaxParameter>::empty());
        }
        while i < trees.len()
            invariant
                start.wf(),
                start.preserves(self),
                i <= trees@.len(),
                parameters_lower(trees@.take(i as int), is_implicit, parameters@),
            decreases trees@.len() - i,
        {
            let p = self.parameter(&trees[i], is_implicit);
            let ghost prev = parameters@;
            parameters.push(p);
            proof {
                assert(trees@.take(i + 1).subrange(0, i as int) =~= trees@.take(i as int));
                assert(parameters@.subrange(0, i as int) =~= prev);
            }
            i = i + 1;
        }
        proof {
            assert(trees@.take(trees@.len() as int) =~= trees@);
        }
        parameters
    }

    /// Lowers a pi type; its parameters are bound in a pi frame of their own.
    /// A parameter given only by its type becomes an unnamed parameter.
    pub fn pi_expr(&mut self, tree: &SyntaxPi) -> (r: TypeRep)
        requires
            old(self).wf(),
        ensures
            old(self).preserves(final(self)),
            final(self).scope.frames@ == old(self).scope.frames@,
            pi_lowers(*tree, *r.expr),
        decreases tree,
    {
        self.scope.fork(ScopeKind::Pi);
        let parameters = match &tree.parameter {
            PiParameters::Explicit(trees) => self.parameters(trees, false),
            PiParameters::Forall(trees) => self.parameters(trees, true),
            PiParameters::Bare(type_rep) => {
                let type_rep = self.type_expr(type_rep);
                let mut parameters: Vec<Parameter> = Vec::new();
                parameters.push(Parameter::unnamed(type_rep, tree.range));
                parameters
            },
        };
        let value = self.type_expr(&tree.value);
        let _ = self.scope.pop();
        proof {
            assert(self.scope.frames@ =~= old(self).scope.frames@);
        }
        TypeRep { expr: Box::new(Expr::Pi(Pi { parameters, value: Box::new(value), location: tree.range })) }
    }

    /// Lowers a sigma type in a sigma frame of its own. A parameter given
    /// only by a pattern gets a hole for its type.
    pub fn sigma_expr(&mut self, tree: &SyntaxSigma) -> (r: TypeRep)
        requires
            old(self).wf(),
        ensures
            old(self).preserves(final(self)),
            final(self).scope.frames@ == old(self).scope.frames@,
            sigma_lowers(*tree, *r.expr),
        decreases tree,
    {
        self.scope.fork(ScopeKind::Sigma);
        let ghost start = *self;
        let mut parameters: Vec<Parameter> = Vec::new();
        let mut i: usize = 0;
        proof {
            assert(tree.parameters@.take(0) =~= Seq::<SigmaParameter>::empty());
        }
        while i < tree.parameters.len()
            invariant
                start.wf(),
                start.preserves(self),
                i <= tree.parameters@.len(),
                sigma_parameters_lower(tree.parameters@.take(i as int), parameters@),
            decreases tree.parameters@.len() - i,
        {
            let parameter = match &tree.parameters[i] {
                SigmaParameter::Parameter(p) => self.parameter(p, true),
                SigmaParameter::Pattern(p) => {
                    let pattern = self.pattern(p);
                    let location = pattern.location();
                    Parameter {
                        binding: pattern,
                        type_rep: TypeRep { expr: Box::new(Expr::Hole(location)) },
                        is_implicit: true,
                        rigid: false,
                        level: HirLevel::Type,
                        location,
                    }
                },
            };
            proof {
                assert(sigma_parameter_lowers(tree.parameters@[i as int], parameter));
            }
            let ghost prev = parameters@;
            parameters.push(parameter);
            proof {
                assert(tree.parameters@.take(i + 1)[i as int] == tree.parameters@[i as int]);
                assert(tree.parameters@.take(i + 1).subrange(0, i as int) =~= tree.parameters@.take(i as int));
                assert(parameters@.subrange(0, i as int) =~= prev);
            }
            i = i + 1;
        }
        let value = self.type_expr(&tree.value);
        let _ = self.scope.pop();
        proof {
            assert(self.scope.frames@ =~= old(self).scope.frames@);
            assert(tree.parameters@.take(tree.parameters@.len() as int) =~= tree.parameters@);
        }
        TypeRep { expr: Box::new(Expr::Sigma(Pi { parameters, value: Box::new(value), location: tree.range })) }
    }

    /// Lowers a match expression; each arm's pattern binds in the current
    /// frame.
    pub fn match_expr(&mut self, tree: &SyntaxMatch, level: HirLevel) -> (r: Expr)
        requires
            old(self).wf(),
        ensures
            old(self).preserves(final(self)),
            match_lowers(*tree, level, r),
        decreases tree,
    {
        let scrutinee = self.expr(&tree.scrutinee, level);
        let ghost start = *self;
        let mut clauses: Vec<MatchArm> = Vec::new();
        let mut i: usize = 0;
        proof {
            assert(tree.arms@.take(0) =~= Seq::<crate::syntax::SyntaxArm>::empty());
        }
        while i < tree.arms.len()
            invariant
                start.wf(),
                start.preserves(self),
                i <= tree.arms@.len(),
                arms_lower(tree.arms@.take(i as int), level, clauses@),
            decreases tree.arms@.len() - i,
        {
            let arm = &tree.arms[i];
            let pattern = self.pattern(&arm.pattern);
            let value = self.arm_body(&arm.body, level);
            let clause = MatchArm { pattern, value, location: arm.range };
            proof {
                assert(arm_lowers(tree.arms@[i as int], level, clause));
            }
            let ghost prev = clauses@;
            clauses.push(clause);
            proof {
                assert(tree.arms@.take(i + 1)[i as int] == tree.arms@[i as int]);
                assert(tree.arms@.take(i + 1).subrange(0, i as int) =~= tree.arms@.take(i as int));
                assert(clauses@.subrange(0, i as int) =~= prev);
            }
            i = i + 1;
        }
        proof {
            assert(tree.arms@.take(tree.arms@.len() as int) =~= tree.arms@);
        }
        Expr::Match(MatchExpr { kind: MatchKind::Match, scrutinee: Box::new(scrutinee), clauses, location: tree.range })
    }

    /// Lowers `if c then t else e` to a match on the lowered `c` with exactly
    /// two arms, `true` to the lowered `t` and then `false` to the lowered `e`.
    pub fn if_expr(&mut self, tree: &SyntaxIf, level: HirLevel) -> (r: Expr)
        requires
            old(self).wf(),
        ensures
            old(self).preserves(final(self)),
            if_lowers(*tree, level, r),
        decreases tree,
    {
        let scrutinee = self.expr(&tree.condition, level);
        let consequence = self.arm_body(&tree.consequence, level);
        let otherwise = self.arm_body(&tree.otherwise, level);
        let consequence_location = consequence.location();
        let otherwise_location = otherwise.location();
        let mut clauses: Vec<MatchArm> = Vec::new();
        clauses.push(
            MatchArm {
                pattern: Pattern::Literal(Literal::Bool(true), Location::CallSite),
                value: consequence,
                location: consequence_location,
            },
        );
        clauses.push(
            MatchArm {
                pattern: Pattern::Literal(Literal::Bool(false), Location::CallSite),
                value: otherwise,
                location: otherwise_location,
            },
        );
        Expr::Match(MatchExpr { kind: MatchKind::If, scrutinee: Box::new(scrutinee), clauses, location: tree.range })
    }

    fn items(&mut self, items: &Vec<SyntaxExpr>, level: HirLevel) -> (r: Vec<Expr>)
        requires
            old(self).wf(),
        ensures
            old(self).preserves(final(self)),
            exprs_lower(items@, level, r@),
        decreases items,
    {
        let ghost start = *self;
        let mut lowered: Vec<Expr> = Vec::new();
        let mut i: usize = 0;
        proof {
            assert(items@.take(0) =~= Seq::<SyntaxExpr>::empty());
        }
        while i < items.len()
            invariant
                start.wf(),
                start.preserves(self),
                i <= items@.len(),
                exprs_lower(items@.take(i as int), level, lowered@),
            decreases items@.len() - i,
        {
            let e = self.expr(&items[i], level);
            let ghost prev = lowered@;
            lowered.push(e);
            proof {
                assert(items@.take(i + 1).subrange(0, i as int) =~= items@.take(i as int));
                assert(lowered@.subrange(0, i as int) =~= prev);
            }
            i = i + 1;
        }
        proof {
            assert(items@.take(items@.len() as int) =~= items@);
        }
        lowered
    }

    /// Lowers `[a, b, ...]` to a prefix call of the array callee.
    pub fn array_expr(&mut self, tree: &SyntaxArray, level: HirLevel) -> (r: Expr)
        requires
            old(self).wf(),
        ensures
            old(self).preserves(final(self)),
            r matches Expr::Call(c) && c.kind == CallKind::Prefix && c.callee == Callee::Array && c.do_notation.is_none()
                && c.location == tree.range && exprs_lower(tree.items@, level, c.arguments@),
        decreases tree,
    {
        let arguments = self.items(&tree.items, level);
        Expr::Call(
            CallExpr {
                kind: CallKind::Prefix,
                callee: Callee::Array,
                arguments,
                do_notation: None,
                location: tree.range,
            },
        )
    }

    /// Lowers `(a, b, ...)` to a prefix call of the tuple callee.
    pub fn tuple_expr(&mut self, tree: &SyntaxTuple, level: HirLevel) -> (r: Expr)
        requires
            old(self).wf(),
        ensures
            old(self).preserves(final(self)),
            r matches Expr::Call(c) && c.kind == CallKind::Prefix && c.callee == Callee::Tuple && c.do_notation.is_none()
                && c.location == tree.range && exprs_lower(tree.items@, level, c.arguments@),
        decreases tree,
    {
        let arguments = self.items(&tree.items, level);
        Expr::Call(
            CallExpr {
                kind: CallKind::Prefix,
                callee: Callee::Tuple,
                arguments,
                do_notation: None,
                location: tree.range,
            },
        )
    }

    /// Lowers `return v` to `pure v` (`pure ()` without a value). Outside a
    /// do-notation scope it is reported, first among the diagnostics the
    /// call adds, and lowered all the same; inside one it is not reported.
    pub fn return_expr(&mut self, tree: &SyntaxReturn, level: HirLevel) -> (r: Expr)
        requires
            old(self).wf(),
        ensures
            old(self).preserves(final(self)),
            r matches Expr::Call(c) && c.kind == CallKind::Prefix && c.callee == Callee::Pure && c.do_notation.is_none()
                && c.location == tree.range && c.arguments@.len() == 1 && match tree.value {
                Some(v) => expr_lowers(*v, level, c.arguments@[0]),
                None => crate::lowered::is_unit_call(c.arguments@[0], tree.range),
            },
            !(exists|i: int| 0 <= i < old(self).scope.frames@.len() && #[trigger] old(self).scope.frames@[i].kind
                == ScopeKind::DoNotation) ==> final(self).diagnostics@.len() > old(self).diagnostics@.len()
                && final(self).diagnostics@[old(self).diagnostics@.len() as int] == (HirError {
                label: tree.range,
                kind: HirErrorKind::ReturnOutsideDoNotation,
            }),
            (exists|i: int| 0 <= i < old(self).scope.frames@.len() && #[trigger] old(self).scope.frames@[i].kind
                == ScopeKind::DoNotation) && tree.value.is_none() ==> final(self).diagnostics == old(self).diagnostics,
        decreases tree,
    {
        let location = tree.range;
        if !self.scope.is_do_notation_scope() {
            self.report(location, HirErrorKind::ReturnOutsideDoNotation);
        }
        let value = match &tree.value {
            Some(value) => self.expr(value, level),
            None => Expr::call_unit_expr(location),
        };
        let mut arguments: Vec<Expr> = Vec::new();
        arguments.push(value);
        Expr::Call(CallExpr { kind: CallKind::Prefix, callee: Callee::Pure, arguments, do_notation: None, location })
    }

    /// Lowers a path: see `path_lowers`.
    pub fn path_expr(&mut self, path: &SyntaxPath, level: HirLevel) -> (r: Expr)
        requires
            old(self).wf(),
        ensures
            old(self).preserves(final(self)),
            final(self).scope.frames@ == old(self).scope.frames@,
            path_lowers(*old(self), *final(self), *path, level, r),
    {
        let kind = match level {
            HirLevel::Expr => DefinitionKind::Function,
            HirLevel::Type => DefinitionKind::Type,
        };
        let type_level = level == HirLevel::Type;
        match self.scope.lookup(&path.name) {
            Some(d) => Expr::Path(self.scope.using(d, path.range, type_level)),
            None => match self.db.find_definition(&path.name, kind) {
                Some(d) => Expr::Path(self.scope.using(d, path.range, type_level)),
                None => {
                    if type_level {
                        if let Some(d) = crate::primitives::primitive_type_definition(&self.db, &path.name) {
                            return Expr::Path(self.scope.using(d, path.range, true));
                        }
                    }
                    self.report(path.range, HirErrorKind::Unresolved);
                    Expr::Path(
                        Reference {
                            definition: Definition::unresolved(kind, path.range),
                            is_type_level: type_level,
                            location: path.range,
                        },
                    )
                },
            },
        }
    }

    /// Lowers a primary expression at the given level. A path lowers as
    /// `path_lowers` says; a free variable `^a` gets a new definition,
    /// registered in the current frame.
    pub fn primary(&mut self, tree: &SyntaxPrimary, level: HirLevel) -> (r: Expr)
        requires
            old(self).wf(),
        ensures
            old(self).preserves(final(self)),
            primary_lowers(*tree, level, r),
            match tree.child {
                PrimaryChild::Path(path) => path_lowers(*old(self), *final(self), path, level, r),
                PrimaryChild::FreeVariable(ident) => match r {
                    Expr::Path(reference) => final(self).scope.current().free_variables@ == old(
                        self,
                    ).scope.current().free_variables@.push(
                        Binding { name: ident.name, definition: reference.definition },
                    ) && final(self).diagnostics == old(self).diagnostics,
                    _ => false,
                },
                PrimaryChild::Literal(_) => final(self).diagnostics == old(self).diagnostics,
                PrimaryChild::Universe => final(self).diagnostics == old(self).diagnostics,
                _ => true,
            },
        decreases tree,
    {
        let location = tree.range;
        match &tree.child {
            PrimaryChild::Array(array) => self.array_expr(array, level),
            PrimaryChild::If(if_expr) => self.if_expr(if_expr, level),
            PrimaryChild::Literal(literal) => Expr::Literal(literal.copy(), location),
            PrimaryChild::Match(m) => self.match_expr(m, level),
            PrimaryChild::Return(ret) => self.return_expr(ret, level),
            PrimaryChild::Tuple(tuple) => self.tuple_expr(tuple, level),
            PrimaryChild::Path(path) => self.path_expr(path, level),
            PrimaryChild::FreeVariable(ident) => {
                let definition = self.db.fresh_definition(DefinitionKind::Type, ident.range);
                Expr::Path(self.scope.insert_free_variable(ident.name.clone(), definition, ident.range))
            },
            PrimaryChild::Universe => Expr::Type(BuiltinType::Universe, location),
        }
    }
}

} // verus!
