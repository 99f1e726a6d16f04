//! The specifier rewriter: a pre-order walk that replaces every eligible
//! import/export specifier with its resolved URL and records each as a
//! dependency.
//!
//! `rw_items` is the specification of the whole walk: it says, for every tree,
//! what the rewritten tree is, which dependencies are appended in which order,
//! which resolved URLs join the star-export set, and on which specifier the
//! walk fails. The executable methods of [`ResolveFold`] are proved to follow
//! it exactly.

use vstd::prelude::*;

verus! {

use crate::ast::ArgList;
use crate::ast::ArgListView;
use crate::ast::Callee;
use crate::ast::CalleeView;
use crate::ast::CallExpr;
use crate::ast::CallExprView;
use crate::ast::ExportAllView;
use crate::ast::Expr;
use crate::ast::ExprOrSpread;
use crate::ast::ExprOrSpreadView;
use crate::ast::ExprView;
use crate::ast::ImportDecl;
use crate::ast::ImportDeclView;
use crate::ast::items_view;
use crate::ast::Lit;
use crate::ast::LitView;
use crate::ast::ModuleDecl;
use crate::ast::ModuleDeclView;
use crate::ast::ModuleItem;
use crate::ast::ModuleItemView;
use crate::ast::NamedExport;
use crate::ast::NamedExportView;
use crate::ast::ExportAll;
use crate::ast::Stmt;
use crate::ast::StmtView;
use crate::resolver::DependencyView;
use crate::resolver::lookup_spec;
use crate::resolver::OccurrenceKind;
use crate::resolver::ResolutionError;
use crate::resolver::Resolver;
use vstd::string::StringExecFns;

// ---------------------------------------------------------------------------
// Specification
// ---------------------------------------------------------------------------

/// What one walk step appends: dependencies in discovery order, and resolved
/// URLs of wildcard re-exports.
pub ghost struct RwAcc {
    pub deps: Seq<DependencyView>,
    pub stars: Seq<Seq<char>>,
}

pub open spec fn acc_empty() -> RwAcc {
    RwAcc { deps: seq![], stars: seq![] }
}

pub open spec fn acc_cat(a: RwAcc, b: RwAcc) -> RwAcc {
    RwAcc { deps: a.deps + b.deps, stars: a.stars + b.stars }
}

/// The outcome of rewriting one node: the rewritten node and what was
/// appended, or the first specifier the table cannot map (with whatever was
/// appended before the walk stopped).
pub ghost enum RwOutcome<T> {
    Rewritten { out: T, acc: RwAcc },
    Unresolved { specifier: Seq<char>, occurrence: OccurrenceKind, acc: RwAcc },
}

/// The callee is a bare identifier with the given name: not `super`, not a
/// property access.
pub open spec fn is_callee_named(c: CalleeView, name: Seq<char>) -> bool {
    match c {
        CalleeView::SuperCallee => false,
        CalleeView::ExprCallee(e) => match *e {
            ExprView::Ident(id) => id == name,
            _ => false,
        },
    }
}

/// The text of the first argument, when it is a plain (non-spread) string
/// literal; `None` for every other argument shape.
pub open spec fn first_str_lit_arg(args: ArgListView) -> Option<Seq<char>> {
    match args {
        ArgListView::Nil => None,
        ArgListView::Cons(a, _) => if a.spread {
            None
        } else {
            match *a.expr {
                ExprView::LitExpr(l) => match l {
                    LitView::StrLit(s) => Some(s),
                    _ => None,
                },
                _ => None,
            }
        },
    }
}

/// An argument list holding exactly one plain string literal.
pub open spec fn single_str_arg(text: Seq<char>) -> ArgListView {
    ArgListView::Cons(
        ExprOrSpreadView {
            spread: false,
            expr: Box::new(ExprView::LitExpr(LitView::StrLit(text))),
        },
        Box::new(ArgListView::Nil),
    )
}

pub open spec fn rw_expr(e: ExprView, table: Seq<(Seq<char>, Seq<char>)>) -> RwOutcome<ExprView>
    decreases e,
{
    match e {
        ExprView::Ident(_) => RwOutcome::Rewritten { out: e, acc: acc_empty() },
        ExprView::LitExpr(_) => RwOutcome::Rewritten { out: e, acc: acc_empty() },
        ExprView::Call(c) => match rw_call(c, table) {
            RwOutcome::Rewritten { out, acc } => RwOutcome::Rewritten {
                out: ExprView::Call(out),
                acc,
            },
            RwOutcome::Unresolved { specifier, occurrence, acc } => RwOutcome::Unresolved {
                specifier,
                occurrence,
                acc,
            },
        },
        ExprView::Arrow(b) => match rw_expr(*b, table) {
            RwOutcome::Rewritten { out, acc } => RwOutcome::Rewritten {
                out: ExprView::Arrow(Box::new(out)),
                acc,
            },
            RwOutcome::Unresolved { specifier, occurrence, acc } => RwOutcome::Unresolved {
                specifier,
                occurrence,
                acc,
            },
        },
        ExprView::Member(b, p) => match rw_expr(*b, table) {
            RwOutcome::Rewritten { out, acc } => RwOutcome::Rewritten {
                out: ExprView::Member(Box::new(out), p),
                acc,
            },
            RwOutcome::Unresolved { specifier, occurrence, acc } => RwOutcome::Unresolved {
                specifier,
                occurrence,
                acc,
            },
        },
        ExprView::Bin(l, r) => match rw_expr(*l, table) {
            RwOutcome::Rewritten { out: lo, acc: la } => match rw_expr(*r, table) {
                RwOutcome::Rewritten { out: ro, acc: ra } => RwOutcome::Rewritten {
                    out: ExprView::Bin(Box::new(lo), Box::new(ro)),
                    acc: acc_cat(la, ra),
                },
                RwOutcome::Unresolved { specifier, occurrence, acc: ra } => RwOutcome::Unresolved {
                    specifier,
                    occurrence,
                    acc: acc_cat(la, ra),
                },
            },
            RwOutcome::Unresolved { specifier, occurrence, acc } => RwOutcome::Unresolved {
                specifier,
                occurrence,
                acc,
            },
        },
    }
}

/// Rewrites one call expression.
///
/// A call of the `import` pseudo-identifier whose first argument is a plain
/// string literal is resolved dynamically and its argument list replaced by
/// the single resolved literal; extra arguments are discarded. An `import`
/// call of any other argument shape is left entirely untouched. Every other
/// call is walked structurally.
pub open spec fn rw_call(c: CallExprView, table: Seq<(Seq<char>, Seq<char>)>) -> RwOutcome<
    CallExprView,
>
    decreases c,
{
    if is_callee_named(c.callee, "import"@) {
        match first_str_lit_arg(c.args) {
            Some(raw) => match lookup_spec(table, raw) {
                Some(url) => RwOutcome::Rewritten {
                    out: CallExprView { callee: c.callee, args: single_str_arg(url) },
                    acc: RwAcc {
                        deps: seq![DependencyView { specifier: url, is_dynamic: true }],
                        stars: seq![],
                    },
                },
                None => RwOutcome::Unresolved {
                    specifier: raw,
                    occurrence: OccurrenceKind::DynamicImport,
                    acc: acc_empty(),
                },
            },
            None => RwOutcome::Rewritten { out: c, acc: acc_empty() },
        }
    } else {
        match rw_callee(c.callee, table) {
            RwOutcome::Rewritten { out: co, acc: ca } => match rw_args(c.args, table) {
                RwOutcome::Rewritten { out: ao, acc: aa } => RwOutcome::Rewritten {
                    out: CallExprView { callee: co, args: ao },
                    acc: acc_cat(ca, aa),
                },
                RwOutcome::Unresolved { specifier, occurrence, acc: aa } => RwOutcome::Unresolved {
                    specifier,
                    occurrence,
                    acc: acc_cat(ca, aa),
                },
            },
            RwOutcome::Unresolved { specifier, occurrence, acc } => RwOutcome::Unresolved {
                specifier,
                occurrence,
                acc,
            },
        }
    }
}

pub open spec fn rw_callee(c: CalleeView, table: Seq<(Seq<char>, Seq<char>)>) -> RwOutcome<
    CalleeView,
>
    decreases c,
{
    match c {
        CalleeView::SuperCallee => RwOutcome::Rewritten { out: c, acc: acc_empty() },
        CalleeView::ExprCallee(b) => match rw_expr(*b, table) {
            RwOutcome::Rewritten { out, acc } => RwOutcome::Rewritten {
                out: CalleeView::ExprCallee(Box::new(out)),
                acc,
            },
            RwOutcome::Unresolved { specifier, occurrence, acc } => RwOutcome::Unresolved {
                specifier,
                occurrence,
                acc,
            },
        },
    }
}

pub open spec fn rw_args(a: ArgListView, table: Seq<(Seq<char>, Seq<char>)>) -> RwOutcome<
    ArgListView,
>
    decreases a,
{
    match a {
        ArgListView::Nil => RwOutcome::Rewritten { out: a, acc: acc_empty() },
        ArgListView::Cons(x, rest) => match rw_expr(*x.expr, table) {
            RwOutcome::Rewritten { out: xo, acc: xa } => match rw_args(*rest, table) {
                RwOutcome::Rewritten { out: ro, acc: ra } => RwOutcome::Rewritten {
                    out: ArgListView::Cons(
                        ExprOrSpreadView { spread: x.spread, expr: Box::new(xo) },
                        Box::new(ro),
                    ),
                    acc: acc_cat(xa, ra),
                },
                RwOutcome::Unresolved { specifier, occurrence, acc: ra } => RwOutcome::Unresolved {
                    specifier,
                    occurrence,
                    acc: acc_cat(xa, ra),
                },
            },
            RwOutcome::Unresolved { specifier, occurrence, acc } => RwOutcome::Unresolved {
                specifier,
                occurrence,
                acc,
            },
        },
    }
}

pub open spec fn rw_stmt(s: StmtView, table: Seq<(Seq<char>, Seq<char>)>) -> RwOutcome<StmtView> {
    match s {
        StmtView::ExprStmt(e) => match rw_expr(e, table) {
            RwOutcome::Rewritten { out, acc } => RwOutcome::Rewritten {
                out: StmtView::ExprStmt(out),
                acc,
            },
            RwOutcome::Unresolved { specifier, occurrence, acc } => RwOutcome::Unresolved {
                specifier,
                occurrence,
                acc,
            },
        },
        StmtView::VarDecl(n, e) => match rw_expr(e, table) {
            RwOutcome::Rewritten { out, acc } => RwOutcome::Rewritten {
                out: StmtView::VarDecl(n, out),
                acc,
            },
            RwOutcome::Unresolved { specifier, occurrence, acc } => RwOutcome::Unresolved {
                specifier,
                occurrence,
                acc,
            },
        },
    }
}

/// Rewrites one module item.
///
/// Type-only imports and re-exports pass through untouched and resolve
/// nothing. A non-type-only static import, named re-export with a source, or
/// wildcard re-export has its source replaced by the resolved URL and appends
/// one static dependency; a wildcard re-export also registers the URL in the
/// star-export set. Everything else is walked for nested dynamic imports.
pub open spec fn rw_item(i: ModuleItemView, table: Seq<(Seq<char>, Seq<char>)>) -> RwOutcome<
    ModuleItemView,
> {
    match i {
        ModuleItemView::ModuleDecl(d) => match d {
            ModuleDeclView::Import(dd) => if dd.type_only {
                RwOutcome::Rewritten { out: i, acc: acc_empty() }
            } else {
                match lookup_spec(table, dd.src) {
                    Some(url) => RwOutcome::Rewritten {
                        out: ModuleItemView::ModuleDecl(
                            ModuleDeclView::Import(
                                ImportDeclView {
                                    specifiers: dd.specifiers,
                                    src: url,
                                    type_only: false,
                                },
                            ),
                        ),
                        acc: RwAcc {
                            deps: seq![DependencyView { specifier: url, is_dynamic: false }],
                            stars: seq![],
                        },
                    },
                    None => RwOutcome::Unresolved {
                        specifier: dd.src,
                        occurrence: OccurrenceKind::StaticImport,
                        acc: acc_empty(),
                    },
                }
            },
            ModuleDeclView::ExportNamed(ne) => match ne.src {
                Some(src) => if ne.type_only {
                    RwOutcome::Rewritten { out: i, acc: acc_empty() }
                } else {
                    match lookup_spec(table, src) {
                        Some(url) => RwOutcome::Rewritten {
                            out: ModuleItemView::ModuleDecl(
                                ModuleDeclView::ExportNamed(
                                    NamedExportView {
                                        specifiers: ne.specifiers,
                                        src: Some(url),
                                        type_only: false,
                                    },
                                ),
                            ),
                            acc: RwAcc {
                                deps: seq![DependencyView { specifier: url, is_dynamic: false }],
                                stars: seq![],
                            },
                        },
                        None => RwOutcome::Unresolved {
                            specifier: src,
                            occurrence: OccurrenceKind::NamedReexport,
                            acc: acc_empty(),
                        },
                    }
                },
                None => RwOutcome::Rewritten { out: i, acc: acc_empty() },
            },
            ModuleDeclView::ExportAll(ea) => match lookup_spec(table, ea.src) {
                Some(url) => RwOutcome::Rewritten {
                    out: ModuleItemView::ModuleDecl(
                        ModuleDeclView::ExportAll(ExportAllView { src: url }),
                    ),
                    acc: RwAcc {
                        deps: seq![DependencyView { specifier: url, is_dynamic: false }],
                        stars: seq![url],
                    },
                },
                None => RwOutcome::Unresolved {
                    specifier: ea.src,
                    occurrence: OccurrenceKind::StarReexport,
                    acc: acc_empty(),
                },
            },
            ModuleDeclView::ExportDefaultExpr(e) => match rw_expr(e, table) {
                RwOutcome::Rewritten { out, acc } => RwOutcome::Rewritten {
                    out: ModuleItemView::ModuleDecl(ModuleDeclView::ExportDefaultExpr(out)),
                    acc,
                },
                RwOutcome::Unresolved { specifier, occurrence, acc } => RwOutcome::Unresolved {
                    specifier,
                    occurrence,
                    acc,
                },
            },
        },
        ModuleItemView::Stmt(s) => match rw_stmt(s, table) {
            RwOutcome::Rewritten { out, acc } => RwOutcome::Rewritten {
                out: ModuleItemView::Stmt(out),
                acc,
            },
            RwOutcome::Unresolved { specifier, occurrence, acc } => RwOutcome::Unresolved {
                specifier,
                occurrence,
                acc,
            },
        },
    }
}

/// Rewrites a module body, item by item, in document order.
pub open spec fn rw_items(items: Seq<ModuleItemView>, table: Seq<(Seq<char>, Seq<char>)>)
    -> RwOutcome<Seq<ModuleItemView>>
    decreases items.len(),
{
    if items.len() == 0 {
        RwOutcome::Rewritten { out: seq![], acc: acc_empty() }
    } else {
        match rw_item(items[0], table) {
            RwOutcome::Rewritten { out: o, acc: a } => match rw_items(items.drop_first(), table) {
                RwOutcome::Rewritten { out: os, acc: b } => RwOutcome::Rewritten {
                    out: seq![o] + os,
                    acc: acc_cat(a, b),
                },
                RwOutcome::Unresolved { specifier, occurrence, acc: b } => RwOutcome::Unresolved {
                    specifier,
                    occurrence,
                    acc: acc_cat(a, b),
                },
            },
            RwOutcome::Unresolved { specifier, occurrence, acc } => RwOutcome::Unresolved {
                specifier,
                occurrence,
                acc,
            },
        }
    }
}

/// The resolver after a walk step: the import table and locality unchanged,
/// the ledger and star-export set extended by exactly what the step appends.
pub open spec fn grows_by(old_r: Resolver, new_r: Resolver, acc: RwAcc) -> bool {
    &&& new_r.table == old_r.table
    &&& new_r.specifier_is_remote == old_r.specifier_is_remote
    &&& new_r.deps_view() == old_r.deps_view() + acc.deps
    &&& new_r.stars_view() == old_r.stars_view() + acc.stars
}

proof fn lemma_grows_refl(r: Resolver)
    ensures
        grows_by(r, r, acc_empty()),
{
    assert(r.deps_view() =~= r.deps_view() + acc_empty().deps);
    assert(r.stars_view() =~= r.stars_view() + acc_empty().stars);
}

proof fn lemma_grows_trans(r0: Resolver, r1: Resolver, r2: Resolver, a: RwAcc, b: RwAcc)
    requires
        grows_by(r0, r1, a),
        grows_by(r1, r2, b),
    ensures
        grows_by(r0, r2, acc_cat(a, b)),
{
    assert(r2.deps_view() =~= r0.deps_view() + acc_cat(a, b).deps);
    assert(r2.stars_view() =~= r0.stars_view() + acc_cat(a, b).stars);
}

proof fn lemma_grows_one_dep(r0: Resolver, r1: Resolver, d: DependencyView)
    requires
        r1.table == r0.table,
        r1.specifier_is_remote == r0.specifier_is_remote,
        r1.deps_view() == r0.deps_view().push(d),
        r1.stars_view() == r0.stars_view(),
    ensures
        grows_by(r0, r1, RwAcc { deps: seq![d], stars: seq![] }),
{
    assert(r0.deps_view().push(d) =~= r0.deps_view() + seq![d]);
    assert(r1.stars_view() =~= r0.stars_view() + Seq::<Seq<char>>::empty());
}

proof fn lemma_grows_one_star(r0: Resolver, r1: Resolver, u: Seq<char>)
    requires
        r1.table == r0.table,
        r1.specifier_is_remote == r0.specifier_is_remote,
        r1.deps_view() == r0.deps_view(),
        r1.stars_view() == r0.stars_view().push(u),
    ensures
        grows_by(r0, r1, RwAcc { deps: seq![], stars: seq![u] }),
{
    assert(r1.deps_view() =~= r0.deps_view() + Seq::<DependencyView>::empty());
    assert(r0.stars_view().push(u) =~= r0.stars_view() + seq![u]);
}

// ---------------------------------------------------------------------------
// Executable rewriter
// ---------------------------------------------------------------------------

/// The specifier rewriter over one compile's resolution authority.
pub struct ResolveFold {
    pub resolver: Resolver,
}

/// A rewriter around the given authority.
pub fn resolve_fold(resolver: Resolver) -> (r: ResolveFold)
    ensures
        r.resolver == resolver,
{
    ResolveFold { resolver }
}

/// The text of the first argument when it is a plain string literal.
fn first_str_lit_arg_exec(args: &ArgList) -> (r: Option<String>)
    ensures
        match r {
            Some(s) => first_str_lit_arg(args.view()) == Some(s@),
            None => first_str_lit_arg(args.view()) is None,
        },
{
    match args {
        ArgList::Nil => None,
        ArgList::Cons(a, rest) => {
            proof {
                assert(args.view() == ArgListView::Cons(a.view(), Box::new((**rest).view())));
            }
            if a.spread {
                None
            } else {
                match &*a.expr {
                    Expr::LitExpr(l) => match l {
                        Lit::StrLit(s) => {
                            proof {
                                assert((*a.expr).view() == ExprView::LitExpr(
                                    LitView::StrLit(s@),
                                ));
                                assert(a.view() == ExprOrSpreadView {
                                    spread: a.spread,
                                    expr: Box::new(ExprView::LitExpr(LitView::StrLit(s@))),
                                });
                            }
                            Some(s.clone())
                        },
                        _ => None,
                    },
                    _ => None,
                }
            }
        },
    }
}

/// Whether `call`'s callee is the bare identifier `name` (not `super`, not a
/// property access).
pub fn is_call_expr_by_name(call: &CallExpr, name: &str) -> (r: bool)
    ensures
        r == is_callee_named(call.view().callee, name@),
{
    let wanted = String::from_str(name);
    match &call.callee {
        Callee::SuperCallee => false,
        Callee::ExprCallee(callee) => match &**callee {
            Expr::Ident(id) => id.eq(&wanted),
            _ => false,
        },
    }
}

impl ResolveFold {
    /// Rewrites one expression, walking every nested scope.
    fn fold_expr(&mut self, e: Expr) -> (r: Result<Expr, ResolutionError>)
        ensures
            match rw_expr(e.view(), old(self).resolver.table_view()) {
                RwOutcome::Rewritten { out, acc } => (r matches Ok(o) && o.view() == out)
                    && grows_by(old(self).resolver, final(self).resolver, acc),
                RwOutcome::Unresolved { specifier, occurrence, acc } => (r matches Err(er)
                    && er.specifier@ == specifier && er.occurrence == occurrence) && grows_by(
                    old(self).resolver,
                    final(self).resolver,
                    acc,
                ),
            },
        decreases e,
    {
        let ghost r0 = self.resolver;
        match e {
            Expr::Ident(s) => {
                proof {
                    lemma_grows_refl(r0);
                }
                Ok(Expr::Ident(s))
            },
            Expr::LitExpr(l) => {
                proof {
                    lemma_grows_refl(r0);
                }
                Ok(Expr::LitExpr(l))
            },
            Expr::Call(c) => match self.fold_call_expr(c) {
                Ok(o) => Ok(Expr::Call(o)),
                Err(er) => Err(er),
            },
            Expr::Arrow(b) => match self.fold_expr(*b) {
                Ok(o) => Ok(Expr::Arrow(Box::new(o))),
                Err(er) => Err(er),
            },
            Expr::Member(b, p) => match self.fold_expr(*b) {
                Ok(o) => Ok(Expr::Member(Box::new(o), p)),
                Err(er) => Err(er),
            },
            Expr::Bin(l, rr) => match self.fold_expr(*l) {
                Ok(lo) => {
                    let ghost r1 = self.resolver;
                    match self.fold_expr(*rr) {
                        Ok(ro) => {
                            proof {
                                lemma_compose_bin(r0, r1, self.resolver);
                            }
                            Ok(Expr::Bin(Box::new(lo), Box::new(ro)))
                        },
                        Err(er) => {
                            proof {
                                lemma_compose_bin(r0, r1, self.resolver);
                            }
                            Err(er)
                        },
                    }
                },
                Err(er) => Err(er),
            },
        }
    }

    /// Rewrites one call expression: resolves an eligible dynamic `import`
    /// call, leaves an ineligible one untouched, and otherwise walks the
    /// callee and the arguments.
    pub fn fold_call_expr(&mut self, call: CallExpr) -> (r: Result<CallExpr, ResolutionError>)
        ensures
            match rw_call(call.view(), old(self).resolver.table_view()) {
                RwOutcome::Rewritten { out, acc } => (r matches Ok(o) && o.view() == out)
                    && grows_by(old(self).resolver, final(self).resolver, acc),
                RwOutcome::Unresolved { specifier, occurrence, acc } => (r matches Err(er)
                    && er.specifier@ == specifier && er.occurrence == occurrence) && grows_by(
                    old(self).resolver,
                    final(self).resolver,
                    acc,
                ),
            },
        decreases call,
    {
        let ghost r0 = self.resolver;
        let ghost call_v0 = call.view();
        proof {
            assert(call_v0 == CallExprView { callee: call.callee.view(), args: call.args.view() });
        }
        if is_call_expr_by_name(&call, "import") {
            let raw: Option<String> = first_str_lit_arg_exec(&call.args);
            match raw {
                Some(text) => {
                    proof {
                        assert(first_str_lit_arg(call.view().args) == Some(text@));
                    }
                    match self.resolver.resolve(text.as_str(), true) {
                        Some(url) => {
                            let ghost url_v = url@;
                            proof {
                                lemma_grows_one_dep(
                                    r0,
                                    self.resolver,
                                    DependencyView { specifier: url_v, is_dynamic: true },
                                );
                            }
                            let lit_arg = ExprOrSpread {
                                spread: false,
                                expr: Box::new(Expr::LitExpr(Lit::StrLit(url))),
                            };
                            proof {
                                assert(lit_arg.view() == ExprOrSpreadView {
                                    spread: false,
                                    expr: Box::new(ExprView::LitExpr(LitView::StrLit(url_v))),
                                });
                            }
                            let new_args = ArgList::Cons(lit_arg, Box::new(ArgList::Nil));
                            proof {
                                assert(new_args.view() == single_str_arg(url_v));
                            }
                            let out_node = CallExpr { callee: call.callee, args: new_args };
                            proof {
                                assert(out_node.view() == CallExprView {
                                    callee: call_v0.callee,
                                    args: single_str_arg(url_v),
                                });
                            }
                            Ok(out_node)
                        },
                        None => {
                            proof {
                                lemma_grows_refl(r0);
                            }
                            Err(
                                ResolutionError {
                                    specifier: text,
                                    occurrence: OccurrenceKind::DynamicImport,
                                },
                            )
                        },
                    }
                },
                None => {
                    proof {
                        assert(first_str_lit_arg(call.view().args) is None);
                        lemma_grows_refl(r0);
                    }
                    Ok(call)
                },
            }
        } else {
            let ghost call_v = call.view();
            let CallExpr { callee, args } = call;
            let ghost callee_v = callee.view();
            let ghost args_v = args.view();
            proof {
                assert(call_v == CallExprView { callee: callee_v, args: args_v });
            }
            let callee2 = match callee {
                Callee::SuperCallee => {
                    proof {
                        lemma_grows_refl(r0);
                        assert(rw_callee(callee_v, r0.table_view()) == RwOutcome::Rewritten::<
                            CalleeView,
                        > { out: callee_v, acc: acc_empty() });
                    }
                    Callee::SuperCallee
                },
                Callee::ExprCallee(b) => {
                    let ghost b_v = (*b).view();
                    proof {
                        assert(callee_v == CalleeView::ExprCallee(Box::new(b_v)));
                    }
                    match self.fold_expr(*b) {
                        Ok(o) => {
                            let ghost o_v = o.view();
                            let c2 = Callee::ExprCallee(Box::new(o));
                            proof {
                                assert(c2.view() == CalleeView::ExprCallee(Box::new(o_v)));
                            }
                            c2
                        },
                        Err(er) => {
                            return Err(er);
                        },
                    }
                },
            };
            let ghost r1 = self.resolver;
            let ghost callee2_v = callee2.view();
            match self.fold_args(args) {
                Ok(args2) => {
                    let ghost args2_v = args2.view();
                    let out_node = CallExpr { callee: callee2, args: args2 };
                    proof {
                        lemma_compose_bin(r0, r1, self.resolver);
                        assert(out_node.view() == CallExprView {
                            callee: callee2_v,
                            args: args2_v,
                        });
                    }
                    Ok(out_node)
                },
                Err(er) => {
                    proof {
                        lemma_compose_bin(r0, r1, self.resolver);
                    }
                    Err(er)
                },
            }
        }
    }

    /// Rewrites each argument of a call in order.
    fn fold_args(&mut self, args: ArgList) -> (r: Result<ArgList, ResolutionError>)
        ensures
            match rw_args(args.view(), old(self).resolver.table_view()) {
                RwOutcome::Rewritten { out, acc } => (r matches Ok(o) && o.view() == out)
                    && grows_by(old(self).resolver, final(self).resolver, acc),
                RwOutcome::Unresolved { specifier, occurrence, acc } => (r matches Err(er)
                    && er.specifier@ == specifier && er.occurrence == occurrence) && grows_by(
                    old(self).resolver,
                    final(self).resolver,
                    acc,
                ),
            },
        decreases args,
    {
        let ghost r0 = self.resolver;
        let ghost args_v = args.view();
        match args {
            ArgList::Nil => {
                proof {
                    lemma_grows_refl(r0);
                }
                Ok(ArgList::Nil)
            },
            ArgList::Cons(a, rest) => {
                let ghost rest_v = (*rest).view();
                let spread = a.spread;
                let ghost ae_v = (*a.expr).view();
                proof {
                    assert(a.view() == ExprOrSpreadView { spread, expr: Box::new(ae_v) });
                    assert(args_v == ArgListView::Cons(a.view(), Box::new(rest_v)));
                }
                match self.fold_expr(*a.expr) {
                    Ok(e2) => {
                        let ghost r1 = self.resolver;
                        let ghost e2_v = e2.view();
                        match self.fold_args(*rest) {
                            Ok(rest2) => {
                                let ghost rest2_v = rest2.view();
                                let x0 = ExprOrSpread { spread, expr: Box::new(e2) };
                                let ghost x0_v = x0.view();
                                proof {
                                    assert(x0_v == ExprOrSpreadView {
                                        spread,
                                        expr: Box::new(e2_v),
                                    });
                                }
                                let out_node = ArgList::Cons(x0, Box::new(rest2));
                                proof {
                                    lemma_compose_bin(r0, r1, self.resolver);
                                    assert(out_node.view() == ArgListView::Cons(
                                        x0_v,
                                        Box::new(rest2_v),
                                    ));
                                }
                                Ok(out_node)
                            },
                            Err(er) => {
                                proof {
                                    lemma_compose_bin(r0, r1, self.resolver);
                                }
                                Err(er)
                            },
                        }
                    },
                    Err(er) => Err(er),
                }
            },
        }
    }
}

impl ResolveFold {
    /// Rewrites one statement.
    fn fold_stmt(&mut self, s: Stmt) -> (r: Result<Stmt, ResolutionError>)
        ensures
            match rw_stmt(s.view(), old(self).resolver.table_view()) {
                RwOutcome::Rewritten { out, acc } => (r matches Ok(o) && o.view() == out)
                    && grows_by(old(self).resolver, final(self).resolver, acc),
                RwOutcome::Unresolved { specifier, occurrence, acc } => (r matches Err(er)
                    && er.specifier@ == specifier && er.occurrence == occurrence) && grows_by(
                    old(self).resolver,
                    final(self).resolver,
                    acc,
                ),
            },
    {
        match s {
            Stmt::ExprStmt(e) => match self.fold_expr(e) {
                Ok(o) => Ok(Stmt::ExprStmt(o)),
                Err(er) => Err(er),
            },
            Stmt::VarDecl(n, e) => match self.fold_expr(e) {
                Ok(o) => Ok(Stmt::VarDecl(n, o)),
                Err(er) => Err(er),
            },
        }
    }

    /// Rewrites one module item: resolves the source of a non-type-only
    /// static import, named re-export or wildcard re-export, passes
    /// type-only occurrences through untouched, and walks everything else
    /// for nested dynamic imports.
    fn fold_module_item(&mut self, item: ModuleItem) -> (r: Result<ModuleItem, ResolutionError>)
        ensures
            match rw_item(item.view(), old(self).resolver.table_view()) {
                RwOutcome::Rewritten { out, acc } => (r matches Ok(o) && o.view() == out)
                    && grows_by(old(self).resolver, final(self).resolver, acc),
                RwOutcome::Unresolved { specifier, occurrence, acc } => (r matches Err(er)
                    && er.specifier@ == specifier && er.occurrence == occurrence) && grows_by(
                    old(self).resolver,
                    final(self).resolver,
                    acc,
                ),
            },
    {
        let ghost r0 = self.resolver;
        let ghost item_v = item.view();
        match item {
            ModuleItem::ModuleDecl(decl) => {
                let ghost decl_v = decl.view();
                proof {
                    assert(item_v == ModuleItemView::ModuleDecl(decl_v));
                }
                match decl {
                    ModuleDecl::Import(d) => {
                        let ghost d_v = d.view();
                        if d.type_only {
                            proof {
                                lemma_grows_refl(r0);
                            }
                            Ok(ModuleItem::ModuleDecl(ModuleDecl::Import(d)))
                        } else {
                            let ghost specs_v = d_v.specifiers;
                            match self.resolver.resolve(d.src.as_str(), false) {
                                Some(url) => {
                                    let ghost url_v = url@;
                                    proof {
                                        lemma_grows_one_dep(
                                            r0,
                                            self.resolver,
                                            DependencyView { specifier: url_v, is_dynamic: false },
                                        );
                                    }
                                    let nd = ImportDecl {
                                        specifiers: d.specifiers,
                                        src: url,
                                        type_only: false,
                                    };
                                    let out_item = ModuleItem::ModuleDecl(ModuleDecl::Import(nd));
                                    proof {
                                        assert(out_item.view() == ModuleItemView::ModuleDecl(
                                            ModuleDeclView::Import(
                                                ImportDeclView {
                                                    specifiers: specs_v,
                                                    src: url_v,
                                                    type_only: false,
                                                },
                                            ),
                                        ));
                                    }
                                    Ok(out_item)
                                },
                                None => {
                                    proof {
                                        lemma_grows_refl(r0);
                                    }
                                    Err(
                                        ResolutionError {
                                            specifier: d.src,
                                            occurrence: OccurrenceKind::StaticImport,
                                        },
                                    )
                                },
                            }
                        }
                    },
                    ModuleDecl::ExportNamed(ne) => {
                        let ghost ne_v = ne.view();
                        if ne.type_only {
                            proof {
                                lemma_grows_refl(r0);
                            }
                            Ok(ModuleItem::ModuleDecl(ModuleDecl::ExportNamed(ne)))
                        } else {
                            let ghost specs_v = ne_v.specifiers;
                            match ne.src {
                                Some(src) => {
                                    match self.resolver.resolve(src.as_str(), false) {
                                        Some(url) => {
                                            let ghost url_v = url@;
                                            proof {
                                                lemma_grows_one_dep(
                                                    r0,
                                                    self.resolver,
                                                    DependencyView {
                                                        specifier: url_v,
                                                        is_dynamic: false,
                                                    },
                                                );
                                            }
                                            let nd = NamedExport {
                                                specifiers: ne.specifiers,
                                                src: Some(url),
                                                type_only: false,
                                            };
                                            let out_item = ModuleItem::ModuleDecl(
                                                ModuleDecl::ExportNamed(nd),
                                            );
                                            proof {
                                                assert(out_item.view()
                                                    == ModuleItemView::ModuleDecl(
                                                    ModuleDeclView::ExportNamed(
                                                        NamedExportView {
                                                            specifiers: specs_v,
                                                            src: Some(url_v),
                                                            type_only: false,
                                                        },
                                                    ),
                                                ));
                                            }
                                            Ok(out_item)
                                        },
                                        None => {
                                            proof {
                                                lemma_grows_refl(r0);
                                            }
                                            Err(
                                                ResolutionError {
                                                    specifier: src,
                                                    occurrence: OccurrenceKind::NamedReexport,
                                                },
                                            )
                                        },
                                    }
                                },
                                None => {
                                    proof {
                                        lemma_grows_refl(r0);
                                    }
                                    let nd = NamedExport {
                                        specifiers: ne.specifiers,
                                        src: None,
                                        type_only: false,
                                    };
                                    let out_item = ModuleItem::ModuleDecl(
                                        ModuleDecl::ExportNamed(nd),
                                    );
                                    proof {
                                        assert(out_item.view() == item_v);
                                    }
                                    Ok(out_item)
                                },
                            }
                        }
                    },
                    ModuleDecl::ExportAll(ea) => {
                        match self.resolver.resolve(ea.src.as_str(), false) {
                            Some(url) => {
                                let ghost url_v = url@;
                                let ghost dep = DependencyView {
                                    specifier: url_v,
                                    is_dynamic: false,
                                };
                                proof {
                                    lemma_grows_one_dep(r0, self.resolver, dep);
                                }
                                let ghost r1 = self.resolver;
                                self.resolver.add_star_export(url.clone());
                                proof {
                                    lemma_grows_one_star(r1, self.resolver, url_v);
                                    lemma_grows_trans(
                                        r0,
                                        r1,
                                        self.resolver,
                                        RwAcc { deps: seq![dep], stars: seq![] },
                                        RwAcc { deps: seq![], stars: seq![url_v] },
                                    );
                                    assert(acc_cat(
                                        RwAcc { deps: seq![dep], stars: seq![] },
                                        RwAcc { deps: seq![], stars: seq![url_v] },
                                    ).deps =~= seq![dep]);
                                    assert(acc_cat(
                                        RwAcc { deps: seq![dep], stars: seq![] },
                                        RwAcc { deps: seq![], stars: seq![url_v] },
                                    ).stars =~= seq![url_v]);
                                }
                                let out_item = ModuleItem::ModuleDecl(
                                    ModuleDecl::ExportAll(ExportAll { src: url }),
                                );
                                proof {
                                    assert(out_item.view() == ModuleItemView::ModuleDecl(
                                        ModuleDeclView::ExportAll(ExportAllView { src: url_v }),
                                    ));
                                }
                                Ok(out_item)
                            },
                            None => {
                                proof {
                                    lemma_grows_refl(r0);
                                }
                                Err(
                                    ResolutionError {
                                        specifier: ea.src,
                                        occurrence: OccurrenceKind::StarReexport,
                                    },
                                )
                            },
                        }
                    },
                    ModuleDecl::ExportDefaultExpr(e) => match self.fold_expr(e) {
                        Ok(o) => Ok(
                            ModuleItem::ModuleDecl(ModuleDecl::ExportDefaultExpr(o)),
                        ),
                        Err(er) => Err(er),
                    },
                }
            },
            ModuleItem::Stmt(s) => match self.fold_stmt(s) {
                Ok(o) => Ok(ModuleItem::Stmt(o)),
                Err(er) => Err(er),
            },
        }
    }

    /// Rewrites a whole module body in document order. On success every
    /// eligible specifier has been replaced by its resolved URL and the
    /// authority's ledger and star-export set have grown by exactly the
    /// discovered dependencies; on failure the error names the first
    /// specifier the table cannot map and its occurrence.
    pub fn fold_module_items(&mut self, module_items: Vec<ModuleItem>) -> (r: Result<
        Vec<ModuleItem>,
        ResolutionError,
    >)
        ensures
            match rw_items(items_view(module_items@), old(self).resolver.table_view()) {
                RwOutcome::Rewritten { out, acc } => (r matches Ok(v) && items_view(v@) == out)
                    && grows_by(old(self).resolver, final(self).resolver, acc),
                RwOutcome::Unresolved { specifier, occurrence, acc } => (r matches Err(er)
                    && er.specifier@ == specifier && er.occurrence == occurrence) && grows_by(
                    old(self).resolver,
                    final(self).resolver,
                    acc,
                ),
            },
    {
        let ghost r0 = self.resolver;
        let ghost table_v = self.resolver.table_view();
        let ghost full = items_view(module_items@);
        let mut rest = module_items;
        let mut out_vec: Vec<ModuleItem> = Vec::new();
        let ghost mut acc_pre: RwAcc = acc_empty();
        proof {
            lemma_grows_refl(r0);
            assert(items_view(out_vec@) =~= Seq::<ModuleItemView>::empty());
            match rw_items(full, table_v) {
                RwOutcome::Rewritten { out: os, acc: b } => {
                    assert(items_view(out_vec@) + os =~= os);
                    assert(acc_cat(acc_pre, b).deps =~= b.deps);
                    assert(acc_cat(acc_pre, b).stars =~= b.stars);
                },
                RwOutcome::Unresolved { specifier, occurrence, acc: b } => {
                    assert(acc_cat(acc_pre, b).deps =~= b.deps);
                    assert(acc_cat(acc_pre, b).stars =~= b.stars);
                },
            }
        }
        while rest.len() > 0
            invariant
                r0 == old(self).resolver,
                table_v == old(self).resolver.table_view(),
                full == items_view(module_items@),
                table_v == r0.table_view(),
                grows_by(r0, self.resolver, acc_pre),
                match rw_items(items_view(rest@), table_v) {
                    RwOutcome::Rewritten { out: os, acc: b } => rw_items(full, table_v)
                        == RwOutcome::Rewritten::<Seq<ModuleItemView>> {
                        out: items_view(out_vec@) + os,
                        acc: acc_cat(acc_pre, b),
                    },
                    RwOutcome::Unresolved { specifier, occurrence, acc: b } => rw_items(
                        full,
                        table_v,
                    ) == RwOutcome::Unresolved::<Seq<ModuleItemView>> {
                        specifier,
                        occurrence,
                        acc: acc_cat(acc_pre, b),
                    },
                },
            decreases rest.len(),
        {
            let ghost rest_v0 = items_view(rest@);
            let ghost out_v0 = items_view(out_vec@);
            let ghost acc0 = acc_pre;
            let ghost r_cur = self.resolver;
            let item = rest.remove(0);
            let ghost item_v = item.view();
            proof {
                assert(rest_v0[0] == item_v);
                assert(items_view(rest@) =~= rest_v0.drop_first());
                assert(r_cur.table_view() == table_v);
            }
            match self.fold_module_item(item) {
                Ok(o) => {
                    let ghost o_v = o.view();
                    out_vec.push(o);
                    proof {
                        assert(items_view(out_vec@) =~= out_v0.push(o_v));
                        match rw_item(item_v, table_v) {
                            RwOutcome::Rewritten { out: o_s, acc: a_s } => {
                                acc_pre = acc_cat(acc0, a_s);
                                lemma_compose_bin(r0, r_cur, self.resolver);
                                match rw_items(rest_v0.drop_first(), table_v) {
                                    RwOutcome::Rewritten { out: os2, acc: b2 } => {
                                        assert(rw_items(rest_v0, table_v)
                                            == RwOutcome::Rewritten::<Seq<ModuleItemView>> {
                                            out: seq![o_s] + os2,
                                            acc: acc_cat(a_s, b2),
                                        });
                                        assert(out_v0 + (seq![o_s] + os2) =~= out_v0.push(o_v)
                                            + os2);
                                        assert(acc_cat(acc0, acc_cat(a_s, b2)).deps =~= acc_cat(
                                            acc_cat(acc0, a_s),
                                            b2,
                                        ).deps);
                                        assert(acc_cat(acc0, acc_cat(a_s, b2)).stars =~= acc_cat(
                                            acc_cat(acc0, a_s),
                                            b2,
                                        ).stars);
                                    },
                                    RwOutcome::Unresolved { specifier: sp2, occurrence: oc2, acc: b2 } => {
                                        assert(rw_items(rest_v0, table_v)
                                            == RwOutcome::Unresolved::<Seq<ModuleItemView>> {
                                            specifier: sp2,
                                            occurrence: oc2,
                                            acc: acc_cat(a_s, b2),
                                        });
                                        assert(acc_cat(acc0, acc_cat(a_s, b2)).deps =~= acc_cat(
                                            acc_cat(acc0, a_s),
                                            b2,
                                        ).deps);
                                        assert(acc_cat(acc0, acc_cat(a_s, b2)).stars =~= acc_cat(
                                            acc_cat(acc0, a_s),
                                            b2,
                                        ).stars);
                                    },
                                }
                            },
                            RwOutcome::Unresolved { .. } => {},
                        }
                    }
                },
                Err(er) => {
                    proof {
                        match rw_item(item_v, table_v) {
                            RwOutcome::Unresolved { specifier: sp, occurrence: oc, acc: a_s } => {
                                lemma_grows_trans(r0, r_cur, self.resolver, acc0, a_s);
                                assert(rw_items(rest_v0, table_v) == RwOutcome::Unresolved::<
                                    Seq<ModuleItemView>,
                                > { specifier: sp, occurrence: oc, acc: a_s });
                                assert(rw_items(full, table_v) == RwOutcome::Unresolved::<
                                    Seq<ModuleItemView>,
                                > { specifier: sp, occurrence: oc, acc: acc_cat(acc0, a_s) });
                            },
                            RwOutcome::Rewritten { .. } => {},
                        }
                    }
                    return Err(er);
                },
            }
        }
        proof {
            assert(items_view(rest@) =~= Seq::<ModuleItemView>::empty());
            assert(rw_items(items_view(rest@), table_v) == RwOutcome::Rewritten::<
                Seq<ModuleItemView>,
            > { out: seq![], acc: acc_empty() });
            match rw_items(full, table_v) {
                RwOutcome::Rewritten { out: os, acc: b } => {
                    assert(items_view(out_vec@) + seq![] =~= items_view(out_vec@));
                    assert(acc_cat(acc_pre, acc_empty()).deps =~= acc_pre.deps);
                    assert(acc_cat(acc_pre, acc_empty()).stars =~= acc_pre.stars);
                },
                RwOutcome::Unresolved { .. } => {},
            }
        }
        Ok(out_vec)
    }
}

/// Two walk steps in sequence grow the resolver by the concatenation of what
/// each appends, whatever each appended.
proof fn lemma_compose_bin(r0: Resolver, r1: Resolver, r2: Resolver)
    ensures
        forall|a: RwAcc, b: RwAcc|
            grows_by(r0, r1, a) && grows_by(r1, r2, b) ==> #[trigger] grows_by(
                r0,
                r2,
                acc_cat(a, b),
            ),
{
    assert forall|a: RwAcc, b: RwAcc|
        grows_by(r0, r1, a) && grows_by(r1, r2, b) implies #[trigger] grows_by(
        r0,
        r2,
        acc_cat(a, b),
    ) by {
        lemma_grows_trans(r0, r1, r2, a, b);
    }
}

} // verus!
