//! Laws of the specifier rewriter, stated over its specification and proved
//! once for all trees and import tables.

use vstd::prelude::*;

verus! {

use crate::ast::ArgListView;
use crate::ast::CalleeView;
use crate::ast::CallExprView;
use crate::ast::ExportAllView;
use crate::ast::ExprView;
use crate::ast::ImportDeclView;
use crate::ast::ModuleDeclView;
use crate::ast::ModuleItemView;
use crate::ast::NamedExportView;
use crate::ast::StmtView;
use crate::resolver::DependencyView;
use crate::resolver::lookup_spec;
use crate::resolve_fold::acc_empty;
use crate::resolve_fold::first_str_lit_arg;
use crate::resolve_fold::is_callee_named;
use crate::resolve_fold::rw_args;
use crate::resolve_fold::rw_call;
use crate::resolve_fold::rw_callee;
use crate::resolve_fold::rw_expr;
use crate::resolve_fold::rw_item;
use crate::resolve_fold::rw_items;
use crate::resolve_fold::rw_stmt;
use crate::resolve_fold::RwAcc;
use crate::resolve_fold::RwOutcome;
use crate::resolve_fold::single_str_arg;

/// A non-type-only static import whose specifier the table maps is rewritten
/// to exactly the resolved URL, all bindings kept, and appends exactly one
/// static dependency on that URL.
pub proof fn lemma_static_import_rewritten(
    d: ImportDeclView,
    table: Seq<(Seq<char>, Seq<char>)>,
    url: Seq<char>,
)
    requires
        !d.type_only,
        lookup_spec(table, d.src) == Some(url),
    ensures
        (rw_item(ModuleItemView::ModuleDecl(ModuleDeclView::Import(d)), table)
            == RwOutcome::Rewritten::<ModuleItemView> {
            out: ModuleItemView::ModuleDecl(
                ModuleDeclView::Import(
                    ImportDeclView { specifiers: d.specifiers, src: url, type_only: false },
                ),
            ),
            acc: RwAcc {
                deps: seq![DependencyView { specifier: url, is_dynamic: false }],
                stars: seq![],
            },
        }),
{
}

/// A non-type-only named re-export with a source the table maps has only its
/// source replaced by the resolved URL, the specifier list kept verbatim,
/// and appends exactly one static dependency on that URL.
pub proof fn lemma_named_reexport_rewritten(
    ne: NamedExportView,
    table: Seq<(Seq<char>, Seq<char>)>,
    src: Seq<char>,
    url: Seq<char>,
)
    requires
        !ne.type_only,
        ne.src == Some(src),
        lookup_spec(table, src) == Some(url),
    ensures
        (rw_item(ModuleItemView::ModuleDecl(ModuleDeclView::ExportNamed(ne)), table)
            == RwOutcome::Rewritten::<ModuleItemView> {
            out: ModuleItemView::ModuleDecl(
                ModuleDeclView::ExportNamed(
                    NamedExportView { specifiers: ne.specifiers, src: Some(url), type_only: false },
                ),
            ),
            acc: RwAcc {
                deps: seq![DependencyView { specifier: url, is_dynamic: false }],
                stars: seq![],
            },
        }),
{
}

/// A wildcard re-export whose specifier the table maps is rewritten to the
/// resolved URL, appends one static dependency, and registers the URL in the
/// star-export set.
pub proof fn lemma_star_reexport_rewritten(
    ea: ExportAllView,
    table: Seq<(Seq<char>, Seq<char>)>,
    url: Seq<char>,
)
    requires
        lookup_spec(table, ea.src) == Some(url),
    ensures
        (rw_item(ModuleItemView::ModuleDecl(ModuleDeclView::ExportAll(ea)), table)
            == RwOutcome::Rewritten::<ModuleItemView> {
            out: ModuleItemView::ModuleDecl(ModuleDeclView::ExportAll(ExportAllView { src: url })),
            acc: RwAcc {
                deps: seq![DependencyView { specifier: url, is_dynamic: false }],
                stars: seq![url],
            },
        }),
{
}

/// A type-only import or type-only re-export passes through byte-identical,
/// resolves nothing and appends nothing.
pub proof fn lemma_type_only_untouched(i: ModuleItemView, table: Seq<(Seq<char>, Seq<char>)>)
    requires
        (i matches ModuleItemView::ModuleDecl(d) && (match d {
            ModuleDeclView::Import(dd) => dd.type_only,
            ModuleDeclView::ExportNamed(ne) => ne.type_only,
            _ => false,
        })),
    ensures
        (rw_item(i, table) == RwOutcome::Rewritten::<ModuleItemView> { out: i, acc: acc_empty() }),
{
}

/// A dynamic `import` call whose first argument is a plain string literal
/// the table maps is rewritten to a call with exactly one argument, the
/// resolved literal, and appends exactly one dynamic dependency.
pub proof fn lemma_dynamic_import_literal(
    c: CallExprView,
    table: Seq<(Seq<char>, Seq<char>)>,
    raw: Seq<char>,
    url: Seq<char>,
)
    requires
        is_callee_named(c.callee, "import"@),
        first_str_lit_arg(c.args) == Some(raw),
        lookup_spec(table, raw) == Some(url),
    ensures
        (rw_call(c, table) == RwOutcome::Rewritten::<CallExprView> {
            out: CallExprView { callee: c.callee, args: single_str_arg(url) },
            acc: RwAcc {
                deps: seq![DependencyView { specifier: url, is_dynamic: true }],
                stars: seq![],
            },
        }),
{
}

/// A dynamic `import` call of any other argument shape is left entirely
/// untouched and appends nothing.
pub proof fn lemma_dynamic_import_non_literal(c: CallExprView, table: Seq<(Seq<char>, Seq<char>)>)
    requires
        is_callee_named(c.callee, "import"@),
        first_str_lit_arg(c.args) is None,
    ensures
        (rw_call(c, table) == RwOutcome::Rewritten::<CallExprView> { out: c, acc: acc_empty() }),
{
}

/// The table maps every URL it resolves to back to itself.
pub open spec fn self_resolving(table: Seq<(Seq<char>, Seq<char>)>) -> bool {
    forall|s: Seq<char>, u: Seq<char>|
        #![trigger lookup_spec(table, s), lookup_spec(table, u)]
        lookup_spec(table, s) == Some(u) ==> lookup_spec(table, u) == Some(u)
}

/// Rewriting a rewritten callee cannot make it the `import` identifier if it
/// was not one before.
proof fn lemma_rw_keeps_callee_anonymous(cal: CalleeView, table: Seq<(Seq<char>, Seq<char>)>)
    requires
        !is_callee_named(cal, "import"@),
    ensures
        (rw_callee(cal, table) matches RwOutcome::Rewritten { out, .. } ==> !is_callee_named(
            out,
            "import"@,
        )),
    decreases cal,
{
    match cal {
        CalleeView::SuperCallee => {},
        CalleeView::ExprCallee(b) => {
            match *b {
                ExprView::Ident(_) => {},
                ExprView::LitExpr(_) => {},
                ExprView::Call(_) => {},
                ExprView::Arrow(_) => {},
                ExprView::Member(_, _) => {},
                ExprView::Bin(_, _) => {},
            }
        },
    }
}

/// Re-running the rewriter on its own output, over a self-resolving table,
/// reproduces the output tree exactly and re-discovers the same
/// dependencies: one rewrite pass reaches a fixed point.
pub proof fn lemma_rewrite_idempotent(
    items: Seq<ModuleItemView>,
    table: Seq<(Seq<char>, Seq<char>)>,
)
    requires
        self_resolving(table),
    ensures
        (rw_items(items, table) matches RwOutcome::Rewritten { out, acc } ==> rw_items(out, table)
            == RwOutcome::Rewritten::<Seq<ModuleItemView>> { out, acc }),
    decreases items.len(),
{
    if items.len() > 0 {
        lemma_rw_item_idempotent(items[0], table);
        lemma_rewrite_idempotent(items.drop_first(), table);
        match rw_item(items[0], table) {
            RwOutcome::Rewritten { out: o, acc: a } => {
                match rw_items(items.drop_first(), table) {
                    RwOutcome::Rewritten { out: os, acc: b } => {
                        let out = seq![o] + os;
                        assert(out.len() > 0);
                        assert(out[0] == o);
                        assert(out.drop_first() =~= os);
                    },
                    RwOutcome::Unresolved { .. } => {},
                }
            },
            RwOutcome::Unresolved { .. } => {},
        }
    }
}

proof fn lemma_rw_item_idempotent(i: ModuleItemView, table: Seq<(Seq<char>, Seq<char>)>)
    requires
        self_resolving(table),
    ensures
        (rw_item(i, table) matches RwOutcome::Rewritten { out, acc } ==> rw_item(out, table)
            == RwOutcome::Rewritten::<ModuleItemView> { out, acc }),
{
    match i {
        ModuleItemView::ModuleDecl(d) => match d {
            ModuleDeclView::Import(_) => {},
            ModuleDeclView::ExportNamed(_) => {},
            ModuleDeclView::ExportAll(_) => {},
            ModuleDeclView::ExportDefaultExpr(e) => {
                lemma_rw_expr_idempotent(e, table);
            },
        },
        ModuleItemView::Stmt(s) => {
            lemma_rw_stmt_idempotent(s, table);
        },
    }
}

proof fn lemma_rw_stmt_idempotent(s: StmtView, table: Seq<(Seq<char>, Seq<char>)>)
    requires
        self_resolving(table),
    ensures
        (rw_stmt(s, table) matches RwOutcome::Rewritten { out, acc } ==> rw_stmt(out, table)
            == RwOutcome::Rewritten::<StmtView> { out, acc }),
{
    match s {
        StmtView::ExprStmt(e) => {
            lemma_rw_expr_idempotent(e, table);
        },
        StmtView::VarDecl(_, e) => {
            lemma_rw_expr_idempotent(e, table);
        },
    }
}

proof fn lemma_rw_expr_idempotent(e: ExprView, table: Seq<(Seq<char>, Seq<char>)>)
    requires
        self_resolving(table),
    ensures
        (rw_expr(e, table) matches RwOutcome::Rewritten { out, acc } ==> rw_expr(out, table)
            == RwOutcome::Rewritten::<ExprView> { out, acc }),
    decreases e,
{
    match e {
        ExprView::Ident(_) => {},
        ExprView::LitExpr(_) => {},
        ExprView::Call(c) => {
            lemma_rw_call_idempotent(c, table);
        },
        ExprView::Arrow(b) => {
            lemma_rw_expr_idempotent(*b, table);
        },
        ExprView::Member(b, _) => {
            lemma_rw_expr_idempotent(*b, table);
        },
        ExprView::Bin(l, r) => {
            lemma_rw_expr_idempotent(*l, table);
            lemma_rw_expr_idempotent(*r, table);
        },
    }
}

proof fn lemma_rw_call_idempotent(c: CallExprView, table: Seq<(Seq<char>, Seq<char>)>)
    requires
        self_resolving(table),
    ensures
        (rw_call(c, table) matches RwOutcome::Rewritten { out, acc } ==> rw_call(out, table)
            == RwOutcome::Rewritten::<CallExprView> { out, acc }),
    decreases c,
{
    if is_callee_named(c.callee, "import"@) {
        match first_str_lit_arg(c.args) {
            Some(raw) => {
                match lookup_spec(table, raw) {
                    Some(url) => {
                        assert(lookup_spec(table, url) == Some(url));
                        assert(first_str_lit_arg(single_str_arg(url)) == Some(url));
                    },
                    None => {},
                }
            },
            None => {},
        }
    } else {
        lemma_rw_keeps_callee_anonymous(c.callee, table);
        lemma_rw_callee_idempotent(c.callee, table);
        lemma_rw_args_idempotent(c.args, table);
        match rw_callee(c.callee, table) {
            RwOutcome::Rewritten { out: co, acc: ca } => {
                match rw_args(c.args, table) {
                    RwOutcome::Rewritten { out: ao, acc: aa } => {
                        let out = CallExprView { callee: co, args: ao };
                        assert(!is_callee_named(out.callee, "import"@));
                    },
                    RwOutcome::Unresolved { .. } => {},
                }
            },
            RwOutcome::Unresolved { .. } => {},
        }
    }
}

proof fn lemma_rw_callee_idempotent(cal: CalleeView, table: Seq<(Seq<char>, Seq<char>)>)
    requires
        self_resolving(table),
    ensures
        (rw_callee(cal, table) matches RwOutcome::Rewritten { out, acc } ==> rw_callee(out, table)
            == RwOutcome::Rewritten::<CalleeView> { out, acc }),
    decreases cal,
{
    match cal {
        CalleeView::SuperCallee => {},
        CalleeView::ExprCallee(b) => {
            lemma_rw_expr_idempotent(*b, table);
        },
    }
}

proof fn lemma_rw_args_idempotent(a: ArgListView, table: Seq<(Seq<char>, Seq<char>)>)
    requires
        self_resolving(table),
    ensures
        (rw_args(a, table) matches RwOutcome::Rewritten { out, acc } ==> rw_args(out, table)
            == RwOutcome::Rewritten::<ArgListView> { out, acc }),
    decreases a,
{
    match a {
        ArgListView::Nil => {},
        ArgListView::Cons(x, rest) => {
            lemma_rw_expr_idempotent(*x.expr, table);
            lemma_rw_args_idempotent(*rest, table);
        },
    }
}

} // verus!

