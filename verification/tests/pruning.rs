use esm_compiler::ast::ArgList;
use esm_compiler::ast::Callee;
use esm_compiler::ast::CallExpr;
use esm_compiler::ast::Expr;
use esm_compiler::ast::ExprOrSpread;
use esm_compiler::ast::ImportDecl;
use esm_compiler::ast::ImportSpecifier;
use esm_compiler::ast::Lit;
use esm_compiler::ast::ModuleDecl;
use esm_compiler::ast::ModuleItem;
use esm_compiler::ast::Stmt;
use esm_compiler::prune::prune_deps;
use esm_compiler::resolve_fold::resolve_fold;
use esm_compiler::resolver::DependencyDescriptor;
use esm_compiler::resolver::Resolver;
use esm_compiler::text::contains_substr;
use esm_compiler::text::to_str_lit;

fn s(text: &str) -> String {
    text.to_string()
}

#[test]
fn to_str_lit_wraps_in_double_quotes() {
    assert_eq!(to_str_lit("abc"), s("\"abc\""));
    assert_eq!(to_str_lit(""), s("\"\""));
}

#[test]
fn substring_search() {
    assert!(contains_substr("hello world", "lo wo"));
    assert!(contains_substr("hello world", "hello"));
    assert!(contains_substr("hello world", "world"));
    assert!(contains_substr("hello", ""));
    assert!(contains_substr("", ""));
    assert!(!contains_substr("abc", "abcd"));
    assert!(!contains_substr("aaa", "ab"));
    assert!(!contains_substr("", "a"));
}

#[test]
fn resolver_records_dependencies_in_order() {
    let table = vec![(s("a"), s("https://cdn.example/a")), (s("b"), s("https://cdn.example/b"))];
    let mut resolver = Resolver::new(table, false);
    assert_eq!(resolver.resolve("a", false), Some(s("https://cdn.example/a")));
    assert_eq!(resolver.resolve("b", true), Some(s("https://cdn.example/b")));
    assert_eq!(resolver.resolve("missing", false), None);
    assert_eq!(
        resolver.deps,
        vec![
            DependencyDescriptor { specifier: s("https://cdn.example/a"), is_dynamic: false },
            DependencyDescriptor { specifier: s("https://cdn.example/b"), is_dynamic: true },
        ]
    );
}

#[test]
fn first_table_entry_wins() {
    let table = vec![(s("a"), s("https://cdn.example/a@1")), (s("a"), s("https://cdn.example/a@2"))];
    let mut resolver = Resolver::new(table, false);
    assert_eq!(resolver.resolve("a", false), Some(s("https://cdn.example/a@1")));
}

#[test]
fn pruning_keeps_present_and_star_exported_entries_only() {
    let mut resolver = Resolver {
        table: vec![],
        specifier_is_remote: false,
        deps: vec![
            DependencyDescriptor { specifier: s("https://cdn.example/a"), is_dynamic: false },
            DependencyDescriptor { specifier: s("https://cdn.example/b"), is_dynamic: false },
            DependencyDescriptor { specifier: s("https://cdn.example/c"), is_dynamic: false },
        ],
        star_exports: vec![s("https://cdn.example/c")],
    };
    let code = "import A from \"https://cdn.example/a\";\nconsole.log(A);\n";
    prune_deps(&mut resolver, code);
    assert_eq!(
        resolver.deps,
        vec![
            DependencyDescriptor { specifier: s("https://cdn.example/a"), is_dynamic: false },
            DependencyDescriptor { specifier: s("https://cdn.example/c"), is_dynamic: false },
        ]
    );
}

#[test]
fn pruning_requires_the_quoted_form() {
    // The specifier occurs in the text, but never as a double-quoted literal.
    let mut resolver = Resolver {
        table: vec![],
        specifier_is_remote: false,
        deps: vec![DependencyDescriptor { specifier: s("https://cdn.example/a"), is_dynamic: false }],
        star_exports: vec![],
    };
    let code = "// https://cdn.example/a was here\n";
    prune_deps(&mut resolver, code);
    assert!(resolver.deps.is_empty());
}

#[test]
fn pruning_an_empty_ledger_yields_an_empty_list() {
    let mut resolver = Resolver {
        table: vec![],
        specifier_is_remote: false,
        deps: vec![],
        star_exports: vec![],
    };
    prune_deps(&mut resolver, "const x = 1;\n");
    assert!(resolver.deps.is_empty());
}

#[test]
fn end_to_end_rewrite_ledger_and_prune() {
    // import React, { useState } from "pkg/react"; const f = () => import("pkg/lazy");
    let items = vec![
        ModuleItem::ModuleDecl(ModuleDecl::Import(ImportDecl {
            specifiers: vec![
                ImportSpecifier::ImportDefault(s("React")),
                ImportSpecifier::ImportNamed(s("useState"), None),
            ],
            src: s("pkg/react"),
            type_only: false,
        })),
        ModuleItem::Stmt(Stmt::VarDecl(
            s("f"),
            Expr::Arrow(Box::new(Expr::Call(CallExpr {
                callee: Callee::ExprCallee(Box::new(Expr::Ident(s("import")))),
                args: ArgList::Cons(
                    ExprOrSpread {
                        spread: false,
                        expr: Box::new(Expr::LitExpr(Lit::StrLit(s("pkg/lazy")))),
                    },
                    Box::new(ArgList::Nil),
                ),
            }))),
        )),
    ];
    let table = vec![
        (s("pkg/react"), s("https://cdn.example/react@18")),
        (s("pkg/lazy"), s("https://cdn.example/lazy@1")),
    ];
    let mut fold = resolve_fold(Resolver::new(table, false));
    let out = fold.fold_module_items(items).unwrap();

    // Both specifiers were rewritten to exactly the mapped URLs.
    match &out[0] {
        ModuleItem::ModuleDecl(ModuleDecl::Import(d)) => {
            assert_eq!(d.src, s("https://cdn.example/react@18"));
            assert_eq!(d.specifiers.len(), 2);
        }
        other => panic!("unexpected item: {:?}", other),
    }
    match &out[1] {
        ModuleItem::Stmt(Stmt::VarDecl(_, Expr::Arrow(body))) => match &**body {
            Expr::Call(c) => match &c.args {
                ArgList::Cons(a, _) => {
                    assert_eq!(
                        *a.expr,
                        Expr::LitExpr(Lit::StrLit(s("https://cdn.example/lazy@1")))
                    );
                }
                other => panic!("unexpected args: {:?}", other),
            },
            other => panic!("unexpected body: {:?}", other),
        },
        other => panic!("unexpected item: {:?}", other),
    }

    // The ledger holds one static and one dynamic entry, in discovery order.
    assert_eq!(
        fold.resolver.deps,
        vec![
            DependencyDescriptor {
                specifier: s("https://cdn.example/react@18"),
                is_dynamic: false,
            },
            DependencyDescriptor { specifier: s("https://cdn.example/lazy@1"), is_dynamic: true },
        ]
    );

    // Unminified emitted text keeps both literals, so both survive pruning.
    let code = "import React, { useState } from \"https://cdn.example/react@18\";\n\
                const f = () => import(\"https://cdn.example/lazy@1\");\n";
    let mut resolver = fold.resolver;
    prune_deps(&mut resolver, code);
    assert_eq!(resolver.deps.len(), 2);
}
