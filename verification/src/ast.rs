//! The module tree the rewriter walks.
//!
//! The executable types hold plain strings and vectors; each has a ghost view
//! (`...View`) over `Seq<char>`, so contracts can speak of trees up to the
//! text they carry.

use vstd::prelude::*;

verus! {

// ---------------------------------------------------------------------------
// Executable tree
// ---------------------------------------------------------------------------

/// A literal expression.
#[derive(Debug, Clone, PartialEq, Eq)]
pub enum Lit {
    StrLit(String),
    NumLit(u64),
    BoolLit(bool),
    NullLit,
}

/// The callee of a call expression: `super` or an ordinary expression.
#[derive(Debug, PartialEq, Eq)]
pub enum Callee {
    SuperCallee,
    ExprCallee(Box<Expr>),
}

/// One call argument, possibly spread (`f(...xs)`).
#[derive(Debug, PartialEq, Eq)]
pub struct ExprOrSpread {
    pub spread: bool,
    pub expr: Box<Expr>,
}

/// The argument list of a call, as a structurally recursive list.
#[derive(Debug, PartialEq, Eq)]
pub enum ArgList {
    Nil,
    Cons(ExprOrSpread, Box<ArgList>),
}

/// A call expression.
#[derive(Debug, PartialEq, Eq)]
pub struct CallExpr {
    pub callee: Callee,
    pub args: ArgList,
}

/// An expression.
#[derive(Debug, PartialEq, Eq)]
pub enum Expr {
    Ident(String),
    LitExpr(Lit),
    Call(CallExpr),
    /// An arrow function with an expression body, `() => e`.
    Arrow(Box<Expr>),
    /// A property access, `obj.prop`.
    Member(Box<Expr>, String),
    /// A binary operation, kept abstract: only the operands matter here.
    Bin(Box<Expr>, Box<Expr>),
}

/// A statement.
#[derive(Debug, PartialEq, Eq)]
pub enum Stmt {
    ExprStmt(Expr),
    /// `const name = init;`
    VarDecl(String, Expr),
}

/// One binding of a static import declaration.
#[derive(Debug, Clone, PartialEq, Eq)]
pub enum ImportSpecifier {
    /// `import name from "..."`
    ImportDefault(String),
    /// `import { imported as local } from "..."` (`imported` absent when equal).
    ImportNamed(String, Option<String>),
    /// `import * as name from "..."`
    ImportStarAs(String),
}

/// One binding of a named re-export.
#[derive(Debug, Clone, PartialEq, Eq)]
pub enum ExportSpecifier {
    /// `export { orig as exported } from "..."` (`exported` absent when equal).
    ExportNamed(String, Option<String>),
    /// `export * as name from "..."`
    ExportNamespace(String),
}

/// `import ... from "src"`, possibly type-only.
#[derive(Debug, Clone, PartialEq, Eq)]
pub struct ImportDecl {
    pub specifiers: Vec<ImportSpecifier>,
    pub src: String,
    pub type_only: bool,
}

/// `export { ... }` with an optional source module, possibly type-only.
#[derive(Debug, Clone, PartialEq, Eq)]
pub struct NamedExport {
    pub specifiers: Vec<ExportSpecifier>,
    pub src: Option<String>,
    pub type_only: bool,
}

/// `export * from "src"`.
#[derive(Debug, Clone, PartialEq, Eq)]
pub struct ExportAll {
    pub src: String,
}

/// A module-level declaration.
#[derive(Debug, PartialEq, Eq)]
pub enum ModuleDecl {
    Import(ImportDecl),
    ExportNamed(NamedExport),
    ExportAll(ExportAll),
    /// `export default expr` — stands for the declarations the rewriter only
    /// walks for nested dynamic imports.
    ExportDefaultExpr(Expr),
}

/// One item of a module body.
#[derive(Debug, PartialEq, Eq)]
pub enum ModuleItem {
    ModuleDecl(ModuleDecl),
    Stmt(Stmt),
}

// ---------------------------------------------------------------------------
// Ghost views
// ---------------------------------------------------------------------------

pub ghost enum LitView {
    StrLit(Seq<char>),
    NumLit(u64),
    BoolLit(bool),
    NullLit,
}

pub ghost enum CalleeView {
    SuperCallee,
    ExprCallee(Box<ExprView>),
}

pub ghost struct ExprOrSpreadView {
    pub spread: bool,
    pub expr: Box<ExprView>,
}

pub ghost enum ArgListView {
    Nil,
    Cons(ExprOrSpreadView, Box<ArgListView>),
}

pub ghost struct CallExprView {
    pub callee: CalleeView,
    pub args: ArgListView,
}

pub ghost enum ExprView {
    Ident(Seq<char>),
    LitExpr(LitView),
    Call(CallExprView),
    Arrow(Box<ExprView>),
    Member(Box<ExprView>, Seq<char>),
    Bin(Box<ExprView>, Box<ExprView>),
}

pub ghost enum StmtView {
    ExprStmt(ExprView),
    VarDecl(Seq<char>, ExprView),
}

pub ghost enum ImportSpecifierView {
    ImportDefault(Seq<char>),
    ImportNamed(Seq<char>, Option<Seq<char>>),
    ImportStarAs(Seq<char>),
}

pub ghost enum ExportSpecifierView {
    ExportNamed(Seq<char>, Option<Seq<char>>),
    ExportNamespace(Seq<char>),
}

pub ghost struct ImportDeclView {
    pub specifiers: Seq<ImportSpecifierView>,
    pub src: Seq<char>,
    pub type_only: bool,
}

pub ghost struct NamedExportView {
    pub specifiers: Seq<ExportSpecifierView>,
    pub src: Option<Seq<char>>,
    pub type_only: bool,
}

pub ghost struct ExportAllView {
    pub src: Seq<char>,
}

pub ghost enum ModuleDeclView {
    Import(ImportDeclView),
    ExportNamed(NamedExportView),
    ExportAll(ExportAllView),
    ExportDefaultExpr(ExprView),
}

pub ghost enum ModuleItemView {
    ModuleDecl(ModuleDeclView),
    Stmt(StmtView),
}

// ---------------------------------------------------------------------------
// View functions
// ---------------------------------------------------------------------------

impl Lit {
    pub open spec fn view(self) -> LitView {
        match self {
            Lit::StrLit(s) => LitView::StrLit(s@),
            Lit::NumLit(n) => LitView::NumLit(n),
            Lit::BoolLit(b) => LitView::BoolLit(b),
            Lit::NullLit => LitView::NullLit,
        }
    }
}

impl Callee {
    pub open spec fn view(self) -> CalleeView
        decreases self,
    {
        match self {
            Callee::SuperCallee => CalleeView::SuperCallee,
            Callee::ExprCallee(e) => CalleeView::ExprCallee(Box::new((*e).view())),
        }
    }
}

impl ExprOrSpread {
    pub open spec fn view(self) -> ExprOrSpreadView
        decreases self,
    {
        ExprOrSpreadView { spread: self.spread, expr: Box::new((*self.expr).view()) }
    }
}

impl ArgList {
    pub open spec fn view(self) -> ArgListView
        decreases self,
    {
        match self {
            ArgList::Nil => ArgListView::Nil,
            ArgList::Cons(a, rest) => ArgListView::Cons(a.view(), Box::new((*rest).view())),
        }
    }
}

impl CallExpr {
    pub open spec fn view(self) -> CallExprView
        decreases self,
    {
        CallExprView { callee: self.callee.view(), args: self.args.view() }
    }
}

impl Expr {
    pub open spec fn view(self) -> ExprView
        decreases self,
    {
        match self {
            Expr::Ident(s) => ExprView::Ident(s@),
            Expr::LitExpr(l) => ExprView::LitExpr(l.view()),
            Expr::Call(c) => ExprView::Call(c.view()),
            Expr::Arrow(b) => ExprView::Arrow(Box::new((*b).view())),
            Expr::Member(b, p) => ExprView::Member(Box::new((*b).view()), p@),
            Expr::Bin(l, r) => ExprView::Bin(Box::new((*l).view()), Box::new((*r).view())),
        }
    }
}

impl Stmt {
    pub open spec fn view(self) -> StmtView {
        match self {
            Stmt::ExprStmt(e) => StmtView::ExprStmt(e.view()),
            Stmt::VarDecl(n, e) => StmtView::VarDecl(n@, e.view()),
        }
    }
}

impl ImportSpecifier {
    pub open spec fn view(self) -> ImportSpecifierView {
        match self {
            ImportSpecifier::ImportDefault(s) => ImportSpecifierView::ImportDefault(s@),
            ImportSpecifier::ImportNamed(l, i) => ImportSpecifierView::ImportNamed(
                l@,
                match i {
                    Some(s) => Some(s@),
                    None => None,
                },
            ),
            ImportSpecifier::ImportStarAs(s) => ImportSpecifierView::ImportStarAs(s@),
        }
    }
}

impl ExportSpecifier {
    pub open spec fn view(self) -> ExportSpecifierView {
        match self {
            ExportSpecifier::ExportNamed(o, e) => ExportSpecifierView::ExportNamed(
                o@,
                match e {
                    Some(s) => Some(s@),
                    None => None,
                },
            ),
            ExportSpecifier::ExportNamespace(s) => ExportSpecifierView::ExportNamespace(s@),
        }
    }
}

impl ImportDecl {
    pub open spec fn view(self) -> ImportDeclView {
        ImportDeclView {
            specifiers: self.specifiers@.map_values(|s: ImportSpecifier| s.view()),
            src: self.src@,
            type_only: self.type_only,
        }
    }
}

impl NamedExport {
    pub open spec fn view(self) -> NamedExportView {
        NamedExportView {
            specifiers: self.specifiers@.map_values(|s: ExportSpecifier| s.view()),
            src: match self.src {
                Some(s) => Some(s@),
                None => None,
            },
            type_only: self.type_only,
        }
    }
}

impl ExportAll {
    pub open spec fn view(self) -> ExportAllView {
        ExportAllView { src: self.src@ }
    }
}

impl ModuleDecl {
    pub open spec fn view(self) -> ModuleDeclView {
        match self {
            ModuleDecl::Import(d) => ModuleDeclView::Import(d.view()),
            ModuleDecl::ExportNamed(d) => ModuleDeclView::ExportNamed(d.view()),
            ModuleDecl::ExportAll(d) => ModuleDeclView::ExportAll(d.view()),
            ModuleDecl::ExportDefaultExpr(e) => ModuleDeclView::ExportDefaultExpr(e.view()),
        }
    }
}

impl ModuleItem {
    pub open spec fn view(self) -> ModuleItemView {
        match self {
            ModuleItem::ModuleDecl(d) => ModuleItemView::ModuleDecl(d.view()),
            ModuleItem::Stmt(s) => ModuleItemView::Stmt(s.view()),
        }
    }
}

/// The view of a whole module body.
pub open spec fn items_view(items: Seq<ModuleItem>) -> Seq<ModuleItemView> {
    items.map_values(|i: ModuleItem| i.view())
}

} // verus!
