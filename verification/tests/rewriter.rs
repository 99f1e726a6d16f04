use esm_compiler::ast::ArgList;
use esm_compiler::ast::Callee;
use esm_compiler::ast::CallExpr;
use esm_compiler::ast::ExportAll;
use esm_compiler::ast::ExportSpecifier;
use esm_compiler::ast::Expr;
use esm_compiler::ast::ExprOrSpread;
use esm_compiler::ast::ImportDecl;
use esm_compiler::ast::ImportSpecifier;
use esm_compiler::ast::Lit;
use esm_compiler::ast::ModuleDecl;
use esm_compiler::ast::ModuleItem;
use esm_compiler::ast::NamedExport;
use esm_compiler::ast::Stmt;
use esm_compiler::resolve_fold::is_call_expr_by_name;
use esm_compiler::resolve_fold::resolve_fold;
use esm_compiler::resolver::OccurrenceKind;
use esm_compiler::resolver::Resolver;

fn s(text: &str) -> String {
    text.to_string()
}

fn table() -> Vec<(String, String)> {
    vec![
        (s("pkg/react"), s("https://cdn.example/react@18")),
        (s("pkg/lazy"), s("https://cdn.example/lazy@1")),
    ]
}

fn one_arg(e: Expr) -> ArgList {
    ArgList::Cons(
        ExprOrSpread { spread: false, expr: Box::new(e) },
        Box::new(ArgList::Nil),
    )
}

fn import_call(args: ArgList) -> CallExpr {
    CallExpr {
        callee: Callee::ExprCallee(Box::new(Expr::Ident(s("import")))),
        args,
    }
}

#[test]
fn static_import_is_rewritten_to_resolved_url() {
    let items = vec![ModuleItem::ModuleDecl(ModuleDecl::Import(ImportDecl {
        specifiers: vec![
            ImportSpecifier::ImportDefault(s("React")),
            ImportSpecifier::ImportNamed(s("useState"), None),
        ],
        src: s("pkg/react"),
        type_only: false,
    }))];
    let mut fold = resolve_fold(Resolver::new(table(), false));
    let out = fold.fold_module_items(items).unwrap();
    assert_eq!(
        out,
        vec![ModuleItem::ModuleDecl(ModuleDecl::Import(ImportDecl {
            specifiers: vec![
                ImportSpecifier::ImportDefault(s("React")),
                ImportSpecifier::ImportNamed(s("useState"), None),
            ],
            src: s("https://cdn.example/react@18"),
            type_only: false,
        }))]
    );
    assert_eq!(fold.resolver.deps.len(), 1);
    assert_eq!(fold.resolver.deps[0].specifier, s("https://cdn.example/react@18"));
    assert!(!fold.resolver.deps[0].is_dynamic);
}

#[test]
fn named_reexport_source_is_rewritten_specifiers_kept() {
    let items = vec![ModuleItem::ModuleDecl(ModuleDecl::ExportNamed(NamedExport {
        specifiers: vec![
            ExportSpecifier::ExportNamed(s("default"), Some(s("React"))),
            ExportSpecifier::ExportNamed(s("useState"), None),
        ],
        src: Some(s("pkg/react")),
        type_only: false,
    }))];
    let mut fold = resolve_fold(Resolver::new(table(), false));
    let out = fold.fold_module_items(items).unwrap();
    assert_eq!(
        out,
        vec![ModuleItem::ModuleDecl(ModuleDecl::ExportNamed(NamedExport {
            specifiers: vec![
                ExportSpecifier::ExportNamed(s("default"), Some(s("React"))),
                ExportSpecifier::ExportNamed(s("useState"), None),
            ],
            src: Some(s("https://cdn.example/react@18")),
            type_only: false,
        }))]
    );
    assert_eq!(fold.resolver.deps.len(), 1);
    assert!(!fold.resolver.deps[0].is_dynamic);
}

#[test]
fn wildcard_reexport_is_rewritten_and_star_registered() {
    let items = vec![ModuleItem::ModuleDecl(ModuleDecl::ExportAll(ExportAll {
        src: s("pkg/react"),
    }))];
    let mut fold = resolve_fold(Resolver::new(table(), false));
    let out = fold.fold_module_items(items).unwrap();
    assert_eq!(
        out,
        vec![ModuleItem::ModuleDecl(ModuleDecl::ExportAll(ExportAll {
            src: s("https://cdn.example/react@18"),
        }))]
    );
    assert_eq!(fold.resolver.deps.len(), 1);
    assert_eq!(
        fold.resolver.star_exports,
        vec![s("https://cdn.example/react@18")]
    );
}

#[test]
fn type_only_import_is_untouched_and_unresolved() {
    let items = vec![ModuleItem::ModuleDecl(ModuleDecl::Import(ImportDecl {
        specifiers: vec![ImportSpecifier::ImportDefault(s("React"))],
        src: s("pkg/react"),
        type_only: true,
    }))];
    let mut fold = resolve_fold(Resolver::new(table(), false));
    let out = fold.fold_module_items(items).unwrap();
    assert_eq!(
        out,
        vec![ModuleItem::ModuleDecl(ModuleDecl::Import(ImportDecl {
            specifiers: vec![ImportSpecifier::ImportDefault(s("React"))],
            src: s("pkg/react"),
            type_only: true,
        }))]
    );
    assert!(fold.resolver.deps.is_empty());
}

#[test]
fn type_only_reexport_is_untouched_and_unresolved() {
    let items = vec![ModuleItem::ModuleDecl(ModuleDecl::ExportNamed(NamedExport {
        specifiers: vec![ExportSpecifier::ExportNamed(s("T"), None)],
        src: Some(s("pkg/react")),
        type_only: true,
    }))];
    let mut fold = resolve_fold(Resolver::new(table(), false));
    let out = fold.fold_module_items(items).unwrap();
    assert_eq!(
        out,
        vec![ModuleItem::ModuleDecl(ModuleDecl::ExportNamed(NamedExport {
            specifiers: vec![ExportSpecifier::ExportNamed(s("T"), None)],
            src: Some(s("pkg/react")),
            type_only: true,
        }))]
    );
    assert!(fold.resolver.deps.is_empty());
}

#[test]
fn dynamic_import_literal_becomes_single_resolved_argument() {
    // Extra arguments are discarded on rewrite.
    let call = import_call(ArgList::Cons(
        ExprOrSpread {
            spread: false,
            expr: Box::new(Expr::LitExpr(Lit::StrLit(s("pkg/lazy")))),
        },
        Box::new(one_arg(Expr::Ident(s("opts")))),
    ));
    let mut fold = resolve_fold(Resolver::new(table(), false));
    let out = fold.fold_call_expr(call).unwrap();
    assert_eq!(
        out,
        import_call(one_arg(Expr::LitExpr(Lit::StrLit(s(
            "https://cdn.example/lazy@1"
        )))))
    );
    assert_eq!(fold.resolver.deps.len(), 1);
    assert!(fold.resolver.deps[0].is_dynamic);
    assert_eq!(fold.resolver.deps[0].specifier, s("https://cdn.example/lazy@1"));
}

#[test]
fn dynamic_import_non_literal_is_unchanged() {
    let call = import_call(one_arg(Expr::Ident(s("which"))));
    let again = import_call(one_arg(Expr::Ident(s("which"))));
    let mut fold = resolve_fold(Resolver::new(table(), false));
    let out = fold.fold_call_expr(call).unwrap();
    assert_eq!(out, again);
    assert!(fold.resolver.deps.is_empty());
}

#[test]
fn dynamic_import_spread_literal_is_unchanged() {
    let call = import_call(ArgList::Cons(
        ExprOrSpread {
            spread: true,
            expr: Box::new(Expr::LitExpr(Lit::StrLit(s("pkg/lazy")))),
        },
        Box::new(ArgList::Nil),
    ));
    let again = import_call(ArgList::Cons(
        ExprOrSpread {
            spread: true,
            expr: Box::new(Expr::LitExpr(Lit::StrLit(s("pkg/lazy")))),
        },
        Box::new(ArgList::Nil),
    ));
    let mut fold = resolve_fold(Resolver::new(table(), false));
    let out = fold.fold_call_expr(call).unwrap();
    assert_eq!(out, again);
    assert!(fold.resolver.deps.is_empty());
}

#[test]
fn ineligible_import_call_subtree_is_left_whole() {
    // The first argument is itself a call, so the outer import call, nested
    // eligible import included, passes through untouched.
    let inner = Expr::Call(import_call(one_arg(Expr::LitExpr(Lit::StrLit(s(
        "pkg/lazy"
    ))))));
    let outer = import_call(one_arg(Expr::Call(CallExpr {
        callee: Callee::ExprCallee(Box::new(Expr::Ident(s("pick")))),
        args: one_arg(inner),
    })));
    let inner2 = Expr::Call(import_call(one_arg(Expr::LitExpr(Lit::StrLit(s(
        "pkg/lazy"
    ))))));
    let outer2 = import_call(one_arg(Expr::Call(CallExpr {
        callee: Callee::ExprCallee(Box::new(Expr::Ident(s("pick")))),
        args: one_arg(inner2),
    })));
    let mut fold = resolve_fold(Resolver::new(table(), false));
    let out = fold.fold_call_expr(outer).unwrap();
    assert_eq!(out, outer2);
    assert!(fold.resolver.deps.is_empty());
}

#[test]
fn nested_dynamic_import_inside_arrow_is_rewritten() {
    let items = vec![ModuleItem::Stmt(Stmt::VarDecl(
        s("f"),
        Expr::Arrow(Box::new(Expr::Call(import_call(one_arg(Expr::LitExpr(
            Lit::StrLit(s("pkg/lazy")),
        )))))),
    ))];
    let mut fold = resolve_fold(Resolver::new(table(), false));
    let out = fold.fold_module_items(items).unwrap();
    assert_eq!(
        out,
        vec![ModuleItem::Stmt(Stmt::VarDecl(
            s("f"),
            Expr::Arrow(Box::new(Expr::Call(import_call(one_arg(Expr::LitExpr(
                Lit::StrLit(s("https://cdn.example/lazy@1")),
            )))))),
        ))]
    );
    assert_eq!(fold.resolver.deps.len(), 1);
    assert!(fold.resolver.deps[0].is_dynamic);
}

#[test]
fn unresolvable_static_import_fails_with_specifier_and_occurrence() {
    let items = vec![ModuleItem::ModuleDecl(ModuleDecl::Import(ImportDecl {
        specifiers: vec![],
        src: s("pkg/missing"),
        type_only: false,
    }))];
    let mut fold = resolve_fold(Resolver::new(table(), false));
    let err = fold.fold_module_items(items).unwrap_err();
    assert_eq!(err.specifier, s("pkg/missing"));
    assert_eq!(err.occurrence, OccurrenceKind::StaticImport);
}

#[test]
fn unresolvable_dynamic_import_fails_with_dynamic_occurrence() {
    let call = import_call(one_arg(Expr::LitExpr(Lit::StrLit(s("pkg/missing")))));
    let mut fold = resolve_fold(Resolver::new(table(), false));
    let err = fold.fold_call_expr(call).unwrap_err();
    assert_eq!(err.specifier, s("pkg/missing"));
    assert_eq!(err.occurrence, OccurrenceKind::DynamicImport);
}

#[test]
fn unresolvable_star_reexport_fails_with_star_occurrence() {
    let items = vec![ModuleItem::ModuleDecl(ModuleDecl::ExportAll(ExportAll {
        src: s("pkg/missing"),
    }))];
    let mut fold = resolve_fold(Resolver::new(table(), false));
    let err = fold.fold_module_items(items).unwrap_err();
    assert_eq!(err.specifier, s("pkg/missing"));
    assert_eq!(err.occurrence, OccurrenceKind::StarReexport);
}

#[test]
fn namespace_reexport_source_is_rewritten() {
    // export * as React from "pkg/react"
    let items = vec![ModuleItem::ModuleDecl(ModuleDecl::ExportNamed(NamedExport {
        specifiers: vec![ExportSpecifier::ExportNamespace(s("React"))],
        src: Some(s("pkg/react")),
        type_only: false,
    }))];
    let mut fold = resolve_fold(Resolver::new(table(), false));
    let out = fold.fold_module_items(items).unwrap();
    assert_eq!(
        out,
        vec![ModuleItem::ModuleDecl(ModuleDecl::ExportNamed(NamedExport {
            specifiers: vec![ExportSpecifier::ExportNamespace(s("React"))],
            src: Some(s("https://cdn.example/react@18")),
            type_only: false,
        }))]
    );
    // A namespace re-export does not join the star-export set.
    assert!(fold.resolver.star_exports.is_empty());
}

#[test]
fn export_without_source_passes_through() {
    let items = vec![ModuleItem::ModuleDecl(ModuleDecl::ExportNamed(NamedExport {
        specifiers: vec![ExportSpecifier::ExportNamed(s("f"), None)],
        src: None,
        type_only: false,
    }))];
    let mut fold = resolve_fold(Resolver::new(table(), false));
    let out = fold.fold_module_items(items).unwrap();
    assert_eq!(
        out,
        vec![ModuleItem::ModuleDecl(ModuleDecl::ExportNamed(NamedExport {
            specifiers: vec![ExportSpecifier::ExportNamed(s("f"), None)],
            src: None,
            type_only: false,
        }))]
    );
    assert!(fold.resolver.deps.is_empty());
}

#[test]
fn zero_argument_import_call_is_unchanged() {
    let call = import_call(ArgList::Nil);
    let mut fold = resolve_fold(Resolver::new(table(), false));
    let out = fold.fold_call_expr(call).unwrap();
    assert_eq!(out, import_call(ArgList::Nil));
    assert!(fold.resolver.deps.is_empty());
}

#[test]
fn call_expr_name_detection() {
    let by_ident = import_call(ArgList::Nil);
    assert!(is_call_expr_by_name(&by_ident, "import"));
    assert!(!is_call_expr_by_name(&by_ident, "require"));
    let by_super = CallExpr { callee: Callee::SuperCallee, args: ArgList::Nil };
    assert!(!is_call_expr_by_name(&by_super, "import"));
    let by_member = CallExpr {
        callee: Callee::ExprCallee(Box::new(Expr::Member(
            Box::new(Expr::Ident(s("system"))),
            s("import"),
        ))),
        args: ArgList::Nil,
    };
    assert!(!is_call_expr_by_name(&by_member, "import"));
}

fn mixed_module() -> Vec<ModuleItem> {
    vec![
        ModuleItem::ModuleDecl(ModuleDecl::Import(ImportDecl {
            specifiers: vec![ImportSpecifier::ImportDefault(s("React"))],
            src: s("pkg/react"),
            type_only: false,
        })),
        ModuleItem::Stmt(Stmt::VarDecl(
            s("f"),
            Expr::Arrow(Box::new(Expr::Call(import_call(one_arg(Expr::LitExpr(
                Lit::StrLit(s("pkg/lazy")),
            )))))),
        )),
        ModuleItem::ModuleDecl(ModuleDecl::ExportAll(ExportAll { src: s("pkg/react") })),
    ]
}

fn self_resolving_table() -> Vec<(String, String)> {
    vec![
        (s("pkg/react"), s("https://cdn.example/react@18")),
        (s("pkg/lazy"), s("https://cdn.example/lazy@1")),
        (
            s("https://cdn.example/react@18"),
            s("https://cdn.example/react@18"),
        ),
        (s("https://cdn.example/lazy@1"), s("https://cdn.example/lazy@1")),
    ]
}

#[test]
fn rewriting_is_idempotent_over_a_self_resolving_table() {
    let mut first = resolve_fold(Resolver::new(self_resolving_table(), false));
    let once = first.fold_module_items(mixed_module()).unwrap();
    let mut again = resolve_fold(Resolver::new(self_resolving_table(), false));
    let expected = again.fold_module_items(mixed_module()).unwrap();
    let mut second = resolve_fold(Resolver::new(self_resolving_table(), false));
    let twice = second.fold_module_items(once).unwrap();
    assert_eq!(twice, expected);
    // The second pass re-discovers the same dependencies.
    assert_eq!(first.resolver.deps, second.resolver.deps);
    assert_eq!(first.resolver.star_exports, second.resolver.star_exports);
}
