//! The rules the pass is configured with.
use vstd::prelude::*;

verus! {

/// How a matched package's exports find their new paths.
#[derive(Clone, Debug)]
pub enum Transform {
    /// One path template for every export.
    String(String),
    /// `(member pattern, path template)` pairs, tried in order.
    Vec(Vec<(String, String)>),
}

/// The rule for the packages whose name matches one pattern.
#[derive(Clone, Debug)]
pub struct PackageConfig {
    pub transform: Transform,
    /// A named export that re-exports a whole module (`export * as ns`) is an
    /// error instead of being left alone.
    pub prevent_full_export: bool,
    /// Keep the named form of each specifier instead of turning it into a
    /// namespace re-export of the new path.
    pub skip_default_conversion: bool,
}

/// Package-name patterns with their rules, in the order they are tried.
#[derive(Clone, Debug)]
pub struct Config {
    pub packages: Vec<(String, PackageConfig)>,
}

pub enum TransformView {
    Template(Seq<char>),
    Rules(Seq<(Seq<char>, Seq<char>)>),
}

pub struct PackageView {
    pub transform: TransformView,
    pub prevent_full_export: bool,
    pub skip_default_conversion: bool,
}

pub open spec fn pairs_view(v: Seq<(String, String)>) -> Seq<(Seq<char>, Seq<char>)> {
    v.map_values(|p: (String, String)| (p.0@, p.1@))
}

impl View for Transform {
    type V = TransformView;

    open spec fn view(&self) -> TransformView {
        match self {
            Transform::String(s) => TransformView::Template(s@),
            Transform::Vec(v) => TransformView::Rules(pairs_view(v@)),
        }
    }
}

impl View for PackageConfig {
    type V = PackageView;

    open spec fn view(&self) -> PackageView {
        PackageView {
            transform: self.transform@,
            prevent_full_export: self.prevent_full_export,
            skip_default_conversion: self.skip_default_conversion,
        }
    }
}

impl Config {
    /// No package pattern is given twice.
    pub open spec fn keys_distinct(&self) -> bool {
        forall|i: int, j: int|
            0 <= i < j < self.packages@.len() ==> #[trigger] self.packages@[i].0@ != #[trigger] self.packages@[j].0@
    }
}

impl Transform {
    /// A single path template.
    pub fn template(s: &str) -> (r: Transform)
        ensures
            r@ == TransformView::Template(s@),
    {
        Transform::String(String::from_str(s))
    }

    /// An ordered list of member rules.
    pub fn rules(v: Vec<(String, String)>) -> (r: Transform)
        ensures
            r@ == TransformView::Rules(pairs_view(v@)),
    {
        Transform::Vec(v)
    }
}

} // verus!
