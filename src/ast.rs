//! The export statements that the pass reads and writes, modelled as plain
//! values. `A` is the host's attributes clause (`with { .. }`) and `S` any
//! other top-level statement: the pass only carries those through.
use vstd::prelude::*;

verus! {

/// A source range of the host's syntax tree.
#[derive(Clone, Copy, Debug, PartialEq, Eq)]
pub struct Span {
    pub lo: u32,
    pub hi: u32,
}

/// The name on either side of an export specifier.
#[derive(Clone, Debug, PartialEq, Eq)]
pub enum ModuleExportName {
    Ident(String),
    Str(String),
}

/// `orig as exported` inside `export { .. } from "src"`.
#[derive(Clone, Debug, PartialEq, Eq)]
pub struct ExportNamedSpecifier {
    pub span: Span,
    pub orig: ModuleExportName,
    pub exported: Option<ModuleExportName>,
    pub is_type_only: bool,
}

/// `* as name` inside `export .. from "src"`.
#[derive(Clone, Debug, PartialEq, Eq)]
pub struct ExportNamespaceSpecifier {
    pub span: Span,
    pub name: ModuleExportName,
}

/// `name` in `export name from "src"`.
#[derive(Clone, Debug, PartialEq, Eq)]
pub struct ExportDefaultSpecifier {
    pub exported: String,
}

#[derive(Clone, Debug, PartialEq, Eq)]
pub enum ExportSpecifier {
    Namespace(ExportNamespaceSpecifier),
    Default(ExportDefaultSpecifier),
    Named(ExportNamedSpecifier),
}

/// `export { .. } from "src"`, or `export { .. }` without a source.
#[derive(Clone, Debug, PartialEq, Eq)]
pub struct NamedExport<A> {
    pub span: Span,
    pub specifiers: Vec<ExportSpecifier>,
    pub src: Option<String>,
    pub type_only: bool,
    pub with: Option<A>,
}

/// `export * from "src"`.
#[derive(Clone, Debug, PartialEq, Eq)]
pub struct ExportAll<A> {
    pub span: Span,
    pub src: String,
    pub type_only: bool,
    pub with: Option<A>,
}

/// One top-level statement of a module.
#[derive(Clone, Debug, PartialEq, Eq)]
pub enum ModuleItem<A, S> {
    ExportNamed(NamedExport<A>),
    ExportAll(ExportAll<A>),
    Other(S),
}

pub enum NameView {
    Ident(Seq<char>),
    Str(Seq<char>),
}

pub enum SpecifierView {
    Namespace { span: Span, name: NameView },
    Default { name: Seq<char> },
    Named { span: Span, orig: NameView, exported: Option<NameView>, is_type_only: bool },
}

pub struct NamedExportView<A> {
    pub span: Span,
    pub specifiers: Seq<SpecifierView>,
    pub src: Option<Seq<char>>,
    pub type_only: bool,
    pub with: Option<A>,
}

pub struct ExportAllView<A> {
    pub span: Span,
    pub src: Seq<char>,
    pub type_only: bool,
    pub with: Option<A>,
}

pub enum ItemView<A, S> {
    ExportNamed(NamedExportView<A>),
    ExportAll(ExportAllView<A>),
    Other(S),
}

impl NameView {
    /// The text of the name, whether written as an identifier or a string.
    pub open spec fn text(self) -> Seq<char> {
        match self {
            NameView::Ident(s) => s,
            NameView::Str(s) => s,
        }
    }
}

impl View for ModuleExportName {
    type V = NameView;

    open spec fn view(&self) -> NameView {
        match self {
            ModuleExportName::Ident(s) => NameView::Ident(s@),
            ModuleExportName::Str(s) => NameView::Str(s@),
        }
    }
}

pub open spec fn option_name_view(n: Option<ModuleExportName>) -> Option<NameView> {
    match n {
        Some(x) => Some(x@),
        None => None,
    }
}

impl View for ExportSpecifier {
    type V = SpecifierView;

    open spec fn view(&self) -> SpecifierView {
        match self {
            ExportSpecifier::Namespace(s) => SpecifierView::Namespace { span: s.span, name: s.name@ },
            ExportSpecifier::Default(s) => SpecifierView::Default { name: s.exported@ },
            ExportSpecifier::Named(s) => SpecifierView::Named {
                span: s.span,
                orig: s.orig@,
                exported: option_name_view(s.exported),
                is_type_only: s.is_type_only,
            },
        }
    }
}

pub open spec fn specifiers_view(v: Seq<ExportSpecifier>) -> Seq<SpecifierView> {
    v.map_values(|s: ExportSpecifier| s@)
}

impl<A> View for NamedExport<A> {
    type V = NamedExportView<A>;

    open spec fn view(&self) -> NamedExportView<A> {
        NamedExportView {
            span: self.span,
            specifiers: specifiers_view(self.specifiers@),
            src: match self.src {
                Some(s) => Some(s@),
                None => None,
            },
            type_only: self.type_only,
            with: self.with,
        }
    }
}

impl<A> View for ExportAll<A> {
    type V = ExportAllView<A>;

    open spec fn view(&self) -> ExportAllView<A> {
        ExportAllView { span: self.span, src: self.src@, type_only: self.type_only, with: self.with }
    }
}

impl<A, S> View for ModuleItem<A, S> {
    type V = ItemView<A, S>;

    open spec fn view(&self) -> ItemView<A, S> {
        match self {
            ModuleItem::ExportNamed(d) => ItemView::ExportNamed(d@),
            ModuleItem::ExportAll(d) => ItemView::ExportAll(d@),
            ModuleItem::Other(s) => ItemView::Other(*s),
        }
    }
}

pub open spec fn items_view<A, S>(v: Seq<ModuleItem<A, S>>) -> Seq<ItemView<A, S>> {
    v.map_values(|i: ModuleItem<A, S>| i@)
}

impl ModuleExportName {
    /// The text of the name.
    pub fn as_str(&self) -> (r: &str)
        ensures
            r@ == self@.text(),
    {
        match self {
            ModuleExportName::Ident(s) => s.as_str(),
            ModuleExportName::Str(s) => s.as_str(),
        }
    }

    /// A copy with the same text and form.
    pub fn duplicate(&self) -> (r: ModuleExportName)
        ensures
            r@ == self@,
    {
        match self {
            ModuleExportName::Ident(s) => ModuleExportName::Ident(s.clone()),
            ModuleExportName::Str(s) => ModuleExportName::Str(s.clone()),
        }
    }
}

impl ExportNamedSpecifier {
    /// A copy of the specifier.
    pub fn duplicate(&self) -> (r: ExportNamedSpecifier)
        ensures
            ExportSpecifier::Named(r)@ == ExportSpecifier::Named(*self)@,
    {
        let exported = match &self.exported {
            Some(n) => Some(n.duplicate()),
            None => None,
        };
        ExportNamedSpecifier {
            span: self.span,
            orig: self.orig.duplicate(),
            exported,
            is_type_only: self.is_type_only,
        }
    }
}

} // verus!
