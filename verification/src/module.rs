//! A script as the compiler sees it: a list of items, of which it reads
//! the imports, the default export and the names that each statement
//! declares.

use vstd::prelude::*;
use crate::ast::Expression;
use crate::ast::ExpressionView;
use crate::structs::bindings_view;
use crate::structs::SetupBinding;
use crate::structs::SetupBindingView;

verus! {

/// One name brought in by an import declaration.
#[derive(Debug, PartialEq)]
pub enum ImportName {
    /// `{ imported as local }`, or `{ local }` where `imported` is `None`.
    Named { local: String, imported: Option<String> },
    /// The default export, as `local`.
    Default(String),
    /// `* as local`.
    Namespace(String),
}

/// `import specifiers from "src"`.
#[derive(Debug, PartialEq)]
pub struct ImportDecl {
    pub specifiers: Vec<ImportName>,
    pub src: String,
}

/// An item of a module.
#[derive(Debug, PartialEq)]
#[allow(inconsistent_fields)]
pub enum ModuleItem {
    /// An import declaration.
    Import(ImportDecl),
    /// `export default expr`.
    ExportDefaultExpr(Expression),
    /// `export default` in front of a class or a function, which is held
    /// as the expression that it declares.
    ExportDefaultDecl(Expression),
    /// `export { .. }`: the declaration, and the bindings that it exports.
    ExportNamed { bindings: Vec<SetupBinding>, raw: Box<swc_core::ecma::ast::ModuleDecl> },
    /// `export` in front of a declaration: the declaration, and the bindings
    /// that it declares.
    ExportDecl { bindings: Vec<SetupBinding>, raw: Box<swc_core::ecma::ast::ModuleDecl> },
    /// Any other module declaration.
    Decl(Box<swc_core::ecma::ast::ModuleDecl>),
    /// A statement, and the bindings that it declares.
    Stmt { bindings: Vec<SetupBinding>, raw: Box<swc_core::ecma::ast::Stmt> },
}

/// A module: its items in source order, and the interpreter line that
/// it begins with, where it has one.
#[derive(Debug, PartialEq)]
pub struct Module {
    pub body: Vec<ModuleItem>,
    pub shebang: Option<String>,
}

/// A script block of a component.
#[derive(Debug, PartialEq)]
pub struct SfcScriptBlock {
    pub content: Box<Module>,
}

/// The view of an [`ImportName`].
pub ghost enum ImportNameView {
    Named { local: Seq<char>, imported: Option<Seq<char>> },
    Default(Seq<char>),
    Namespace(Seq<char>),
}

/// The view of an [`ImportDecl`].
pub ghost struct ImportDeclView {
    pub specifiers: Seq<ImportNameView>,
    pub src: Seq<char>,
}

/// The view of a [`ModuleItem`].
#[allow(inconsistent_fields)]
pub ghost enum ModuleItemView {
    Import(ImportDeclView),
    ExportDefaultExpr(ExpressionView),
    ExportDefaultDecl(ExpressionView),
    ExportNamed { bindings: Seq<SetupBindingView>, raw: swc_core::ecma::ast::ModuleDecl },
    ExportDecl { bindings: Seq<SetupBindingView>, raw: swc_core::ecma::ast::ModuleDecl },
    Decl(swc_core::ecma::ast::ModuleDecl),
    Stmt { bindings: Seq<SetupBindingView>, raw: swc_core::ecma::ast::Stmt },
}

/// The view of a [`Module`].
pub ghost struct ModuleView {
    pub body: Seq<ModuleItemView>,
    pub shebang: Option<Seq<char>>,
}

impl View for ImportName {
    type V = ImportNameView;

    open spec fn view(&self) -> ImportNameView {
        match self {
            ImportName::Named { local, imported } => ImportNameView::Named {
                local: local@,
                imported: match imported {
                    Some(name) => Some(name@),
                    None => None,
                },
            },
            ImportName::Default(local) => ImportNameView::Default(local@),
            ImportName::Namespace(local) => ImportNameView::Namespace(local@),
        }
    }
}

/// The views of a sequence of import specifiers.
pub open spec fn specifiers_view(specifiers: Seq<ImportName>) -> Seq<ImportNameView> {
    specifiers.map_values(|s: ImportName| s@)
}

impl View for ImportDecl {
    type V = ImportDeclView;

    open spec fn view(&self) -> ImportDeclView {
        ImportDeclView { specifiers: specifiers_view(self.specifiers@), src: self.src@ }
    }
}

impl View for ModuleItem {
    type V = ModuleItemView;

    open spec fn view(&self) -> ModuleItemView {
        match self {
            ModuleItem::Import(decl) => ModuleItemView::Import(decl@),
            ModuleItem::ExportDefaultExpr(expr) => ModuleItemView::ExportDefaultExpr(expr@),
            ModuleItem::ExportDefaultDecl(expr) => ModuleItemView::ExportDefaultDecl(expr@),
            ModuleItem::ExportNamed { bindings, raw } => ModuleItemView::ExportNamed {
                bindings: bindings_view(bindings@),
                raw: **raw,
            },
            ModuleItem::ExportDecl { bindings, raw } => ModuleItemView::ExportDecl {
                bindings: bindings_view(bindings@),
                raw: **raw,
            },
            ModuleItem::Decl(raw) => ModuleItemView::Decl(**raw),
            ModuleItem::Stmt { bindings, raw } => ModuleItemView::Stmt {
                bindings: bindings_view(bindings@),
                raw: **raw,
            },
        }
    }
}

/// The views of a sequence of module items.
pub open spec fn items_view(items: Seq<ModuleItem>) -> Seq<ModuleItemView> {
    items.map_values(|item: ModuleItem| item@)
}

impl View for Module {
    type V = ModuleView;

    open spec fn view(&self) -> ModuleView {
        ModuleView {
            body: items_view(self.body@),
            shebang: match self.shebang {
                Some(line) => Some(line@),
                None => None,
            },
        }
    }
}

impl Module {
    /// A module without items and without an interpreter line.
    pub fn new() -> (module: Module)
        ensures
            module@ == (ModuleView { body: Seq::empty(), shebang: None }),
    {
        let module = Module { body: Vec::new(), shebang: None };
        assert(module@.body =~= Seq::empty());
        module
    }
}

} // verus!
