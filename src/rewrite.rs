//! The rewrite of one export statement whose source matched a package rule.
use vstd::prelude::*;
use crate::ast::{
    ExportAll, ExportAllView, ExportNamedSpecifier, ExportNamespaceSpecifier, ExportSpecifier, NamedExport,
    NamedExportView, Span, SpecifierView, specifiers_view,
};
use crate::config::{PackageConfig, PackageView, Transform, TransformView};
use crate::pattern::{anchor, anchored, captures, regex_captures, regex_valid, strings_view};
use crate::render::{calls_partial, collapse_slashes, normalize_path, rendered, Renderer};

verus! {

/// The kind of a failure of the pass.
pub enum Fault {
    /// An (anchored) package or member pattern is not a valid regular expression.
    InvalidPattern { pattern: Seq<char> },
    /// A path template failed to render for the package.
    Render { package: Seq<char> },
    /// No member rule of the package matches the exported name.
    MissingRule { member: Seq<char>, package: Seq<char> },
    /// A named export from the package re-exports a whole module under `preventFullExport`.
    FullExport { package: Seq<char> },
    /// A path template calls a partial.
    PartialCall { template: Seq<char> },
}

/// Why the pass stopped.
#[derive(Debug)]
pub enum TransformError {
    InvalidPattern { pattern: String },
    Render { package: String, error: handlebars::RenderError },
    MissingRule { member: String, package: String },
    FullExport { package: String },
    PartialCall { template: String },
}

impl TransformError {
    pub open spec fn fault(&self) -> Fault {
        match self {
            TransformError::InvalidPattern { pattern } => Fault::InvalidPattern { pattern: pattern@ },
            TransformError::Render { package, .. } => Fault::Render { package: package@ },
            TransformError::MissingRule { member, package } => Fault::MissingRule { member: member@, package: package@ },
            TransformError::FullExport { package } => Fault::FullExport { package: package@ },
            TransformError::PartialCall { template } => Fault::PartialCall { template: template@ },
        }
    }
}

/// The path from the first member rule whose (anchored) pattern matches `member`.
pub open spec fn member_rule_path(
    key: Seq<char>,
    rules: Seq<(Seq<char>, Seq<char>)>,
    matches: Seq<Seq<char>>,
    member: Seq<char>,
) -> Result<Seq<char>, Fault>
    decreases rules.len(),
{
    if rules.len() == 0 {
        Err(Fault::MissingRule { member, package: key })
    } else {
        let p = anchored(rules[0].0);
        if !regex_valid(p) {
            Err(Fault::InvalidPattern { pattern: p })
        } else {
            match regex_captures(p, member) {
                Some(g) => match rendered(rules[0].1, matches, member, Some(g)) {
                    Some(s) => Ok(collapse_slashes(s)),
                    None => Err(Fault::Render { package: key }),
                },
                None => member_rule_path(key, rules.drop_first(), matches, member),
            }
        }
    }
}

/// The normalized path that `member` of a package is re-exported from.
pub open spec fn path_for(key: Seq<char>, t: TransformView, matches: Seq<Seq<char>>, member: Seq<char>) -> Result<Seq<char>, Fault> {
    match t {
        TransformView::Template(s) => match rendered(s, matches, member, None) {
            Some(r) => Ok(collapse_slashes(r)),
            None => Err(Fault::Render { package: key }),
        },
        TransformView::Rules(rules) => member_rule_path(key, rules, matches, member),
    }
}

/// No template of the member rules calls a partial.
pub open spec fn rule_templates_safe(v: Seq<(Seq<char>, Seq<char>)>) -> bool {
    forall|q: int| 0 <= q < v.len() ==> !calls_partial(#[trigger] v[q].1)
}

/// No path template of the rule calls a partial.
pub open spec fn templates_safe(t: TransformView) -> bool {
    match t {
        TransformView::Template(s) => !calls_partial(s),
        TransformView::Rules(v) => rule_templates_safe(v),
    }
}

/// The specifier that re-exports a named specifier from its own path.
pub open spec fn new_specifier(skip_default_conversion: bool, s: SpecifierView) -> SpecifierView {
    match s {
        SpecifierView::Named { span, orig, exported, is_type_only } => if skip_default_conversion {
            s
        } else {
            SpecifierView::Namespace {
                span,
                name: match exported {
                    Some(e) => e,
                    None => orig,
                },
            }
        },
        _ => s,
    }
}

pub open spec fn single_export<A>(span: Span, s: SpecifierView, path: Seq<char>) -> NamedExportView<A> {
    NamedExportView { span, specifiers: seq![s], src: Some(path), type_only: false, with: None }
}

/// How far a named export gets: every specifier rewritten, given up at a
/// non-named specifier, or failed.
pub enum Scan<A> {
    Done(Seq<NamedExportView<A>>),
    GiveUp,
    Fail(Fault),
}

/// The specifiers are taken in order; the first that is not named, or whose
/// path fails, decides the outcome.
pub open spec fn scan_named<A>(
    key: Seq<char>,
    cfg: PackageView,
    matches: Seq<Seq<char>>,
    span: Span,
    specs: Seq<SpecifierView>,
) -> Scan<A>
    decreases specs.len(),
{
    if specs.len() == 0 {
        Scan::Done(seq![])
    } else {
        match scan_named::<A>(key, cfg, matches, span, specs.drop_last()) {
            Scan::Done(outs) => match specs.last() {
                SpecifierView::Named { orig, .. } => match path_for(key, cfg.transform, matches, orig.text()) {
                    Ok(p) => Scan::Done(
                        outs.push(single_export(span, new_specifier(cfg.skip_default_conversion, specs.last()), p)),
                    ),
                    Err(f) => Scan::Fail(f),
                },
                _ => Scan::GiveUp,
            },
            other => other,
        }
    }
}

/// What a named export from a matched package becomes.
pub open spec fn rewrite_named_spec<A>(
    key: Seq<char>,
    cfg: PackageView,
    matches: Seq<Seq<char>>,
    d: NamedExportView<A>,
) -> Result<Seq<NamedExportView<A>>, Fault> {
    if d.type_only || d.with is Some {
        Ok(seq![d])
    } else {
        match scan_named::<A>(key, cfg, matches, d.span, d.specifiers) {
            Scan::Done(outs) => Ok(outs),
            Scan::GiveUp => if cfg.prevent_full_export {
                Err(Fault::FullExport { package: key })
            } else {
                Ok(seq![d])
            },
            Scan::Fail(f) => Err(f),
        }
    }
}

/// What `export * from` a matched package becomes.
pub open spec fn rewrite_all_spec<A>(
    key: Seq<char>,
    cfg: PackageView,
    matches: Seq<Seq<char>>,
    d: ExportAllView<A>,
) -> Result<Seq<ExportAllView<A>>, Fault> {
    if d.type_only || d.with is Some {
        Ok(seq![d])
    } else {
        match path_for(key, cfg.transform, matches, seq!['*']) {
            Ok(p) => Ok(seq![ExportAllView { span: d.span, src: p, type_only: false, with: None }]),
            Err(f) => Err(f),
        }
    }
}

pub open spec fn named_views<A>(v: Seq<NamedExport<A>>) -> Seq<NamedExportView<A>> {
    v.map_values(|d: NamedExport<A>| d@)
}

pub open spec fn all_views<A>(v: Seq<ExportAll<A>>) -> Seq<ExportAllView<A>> {
    v.map_values(|d: ExportAll<A>| d@)
}

/// Once a prefix of the specifiers has given up or failed, the rest do not matter.
pub proof fn lemma_scan_settled<A>(
    key: Seq<char>,
    cfg: PackageView,
    matches: Seq<Seq<char>>,
    span: Span,
    specs: Seq<SpecifierView>,
    k: int,
)
    requires
        0 <= k <= specs.len(),
        !(scan_named::<A>(key, cfg, matches, span, specs.subrange(0, k)) is Done),
    ensures
        scan_named::<A>(key, cfg, matches, span, specs) == scan_named::<A>(key, cfg, matches, span, specs.subrange(0, k)),
    decreases specs.len(),
{
    if specs.len() == k {
        assert(specs.subrange(0, k) =~= specs);
    } else {
        assert(specs.drop_last().subrange(0, k) =~= specs.subrange(0, k));
        lemma_scan_settled::<A>(key, cfg, matches, span, specs.drop_last(), k);
    }
}

fn single_named<A>(d: NamedExport<A>) -> (r: Vec<NamedExport<A>>)
    ensures
        named_views(r@) == seq![d@],
{
    let mut r = Vec::new();
    r.push(d);
    assert(named_views(r@) =~= seq![d@]);
    r
}

fn single_all<A>(d: ExportAll<A>) -> (r: Vec<ExportAll<A>>)
    ensures
        all_views(r@) == seq![d@],
{
    let mut r = Vec::new();
    r.push(d);
    assert(all_views(r@) =~= seq![d@]);
    r
}

/// The export of one named specifier from its own `path`: a namespace
/// re-export under the specifier's exported name, or with
/// `skip_default_conversion` the specifier itself.
pub fn export_from<A>(
    span: Span,
    named: &ExportNamedSpecifier,
    path: String,
    skip_default_conversion: bool,
) -> (r: NamedExport<A>)
    ensures
        r@ == single_export::<A>(span, new_specifier(skip_default_conversion, ExportSpecifier::Named(*named)@), path@),
{
    let specifier = if skip_default_conversion {
        ExportSpecifier::Named(named.duplicate())
    } else {
        let name = match &named.exported {
            Some(e) => e.duplicate(),
            None => named.orig.duplicate(),
        };
        ExportSpecifier::Namespace(ExportNamespaceSpecifier { span: named.span, name })
    };
    let r = NamedExport { span, specifiers: vec![specifier], src: Some(path), type_only: false, with: None };
    assert(specifiers_view(r.specifiers@) =~= seq![specifier@]);
    r
}

/// The rewriter for one matched package: its rule and the groups that the
/// package pattern captured.
pub struct Rewriter<'a> {
    pub renderer: &'a Renderer,
    pub key: &'a str,
    pub config: &'a PackageConfig,
    pub group: Vec<String>,
}

impl<'a> Rewriter<'a> {
    /// The renderer is set up and no template of the rule calls a partial.
    pub open spec fn wf(&self) -> bool {
        self.renderer.wf() && templates_safe(self.config.transform@)
    }

    /// The normalized path that `member` is re-exported from.
    pub fn path_for(&self, member: &str) -> (r: Result<String, TransformError>)
        requires
            self.wf(),
        ensures
            match r {
                Ok(s) => path_for(self.key@, self.config.transform@, strings_view(self.group@), member@) == Ok::<Seq<char>, Fault>(s@),
                Err(e) => path_for(self.key@, self.config.transform@, strings_view(self.group@), member@) == Err::<Seq<char>, Fault>(e.fault()),
            },
    {
        match &self.config.transform {
            Transform::String(s) => match self.renderer.render(s.as_str(), &self.group, member, &None) {
                Ok(p) => Ok(normalize_path(p.as_str())),
                Err(error) => Err(TransformError::Render { package: String::from_str(self.key), error }),
            },
            Transform::Vec(rules) => self.first_rule_path(rules, member),
        }
    }

    /// The normalized path from the first member rule that matches `member`.
    fn first_rule_path(&self, rules: &Vec<(String, String)>, member: &str) -> (r: Result<String, TransformError>)
        requires
            self.wf(),
            self.config.transform@ == TransformView::Rules(crate::config::pairs_view(rules@)),
        ensures
            match r {
                Ok(s) => member_rule_path(self.key@, crate::config::pairs_view(rules@), strings_view(self.group@), member@)
                    == Ok::<Seq<char>, Fault>(s@),
                Err(e) => member_rule_path(self.key@, crate::config::pairs_view(rules@), strings_view(self.group@), member@)
                    == Err::<Seq<char>, Fault>(e.fault()),
            },
    {
        let n = rules.len();
        let ghost all = crate::config::pairs_view(rules@);
        let ghost matches = strings_view(self.group@);
        assert(all.subrange(0, n as int) =~= all);
        let mut i: usize = 0;
        while i < n
            invariant
                n == rules@.len(),
                i <= n,
                all == crate::config::pairs_view(rules@),
                matches == strings_view(self.group@),
                self.wf(),
                self.config.transform@ == TransformView::Rules(all),
                member_rule_path(self.key@, all, matches, member@)
                    == member_rule_path(self.key@, all.subrange(i as int, n as int), matches, member@),
            decreases n - i,
        {
            let ghost rest = all.subrange(i as int, n as int);
            assert(rest.drop_first() =~= all.subrange(i as int + 1, n as int));
            assert(rest[0] == all[i as int]);
            assert(all[i as int] == (rules@[i as int].0@, rules@[i as int].1@));
            let key = anchor(rules[i].0.as_str());
            match captures(key.as_str(), member) {
                Err(_) => {
                    return Err(TransformError::InvalidPattern { pattern: key });
                },
                Ok(None) => {},
                Ok(Some(g)) => {
                    return match self.renderer.render(rules[i].1.as_str(), &self.group, member, &Some(g)) {
                        Ok(p) => Ok(normalize_path(p.as_str())),
                        Err(error) => Err(TransformError::Render { package: String::from_str(self.key), error }),
                    };
                },
            }
            i = i + 1;
        }
        Err(TransformError::MissingRule { member: String::from_str(member), package: String::from_str(self.key) })
    }

    /// Rewrites a named export into one export per specifier, each from its
    /// own path; left alone when type-only, with attributes, or holding a
    /// specifier that is not named.
    pub fn rewrite_named<A>(&self, decl: NamedExport<A>) -> (r: Result<Vec<NamedExport<A>>, TransformError>)
        requires
            self.wf(),
        ensures
            match r {
                Ok(v) => rewrite_named_spec(self.key@, self.config@, strings_view(self.group@), decl@) == Ok::<Seq<NamedExportView<A>>, Fault>(named_views(v@)),
                Err(e) => rewrite_named_spec(self.key@, self.config@, strings_view(self.group@), decl@) == Err::<Seq<NamedExportView<A>>, Fault>(e.fault()),
            },
    {
        if decl.type_only || decl.with.is_some() {
            return Ok(single_named(decl));
        }
        let ghost cfg = self.config@;
        let ghost matches = strings_view(self.group@);
        let ghost specs = specifiers_view(decl.specifiers@);
        let n = decl.specifiers.len();
        let mut out: Vec<NamedExport<A>> = Vec::new();
        let mut i: usize = 0;
        assert(specs.subrange(0, 0) =~= Seq::<SpecifierView>::empty());
        assert(named_views(out@) =~= Seq::<NamedExportView<A>>::empty());
        while i < n
            invariant
                n == decl.specifiers@.len(),
                i <= n,
                cfg == self.config@,
                matches == strings_view(self.group@),
                self.wf(),
                specs == specifiers_view(decl.specifiers@),
                !decl.type_only,
                decl.with is None,
                scan_named::<A>(self.key@, cfg, matches, decl.span, specs.subrange(0, i as int)) == Scan::Done(named_views(out@)),
            decreases n - i,
        {
            assert(specs.subrange(0, i as int + 1).drop_last() =~= specs.subrange(0, i as int));
            assert(specs.subrange(0, i as int + 1).last() == decl.specifiers@[i as int]@);
            match &decl.specifiers[i] {
                ExportSpecifier::Named(named) => {
                    let path = match self.path_for(named.orig.as_str()) {
                        Ok(p) => p,
                        Err(e) => {
                            proof {
                                lemma_scan_settled::<A>(self.key@, cfg, matches, decl.span, specs, i as int + 1);
                            }
                            return Err(e);
                        },
                    };
                    let stmt = export_from(decl.span, named, path, self.config.skip_default_conversion);
                    let ghost before = out@;
                    out.push(stmt);
                    proof {
                        assert(named_views(out@) =~= named_views(before).push(stmt@));
                    }
                },
                _ => {
                    proof {
                        lemma_scan_settled::<A>(self.key@, cfg, matches, decl.span, specs, i as int + 1);
                    }
                    if self.config.prevent_full_export {
                        return Err(TransformError::FullExport { package: String::from_str(self.key) });
                    }
                    return Ok(single_named(decl));
                },
            }
            i = i + 1;
        }
        assert(specs.subrange(0, n as int) =~= specs);
        Ok(out)
    }

    /// Rewrites `export * from` to the path rendered for the member `*`;
    /// left alone when type-only or with attributes.
    pub fn rewrite_all<A>(&self, decl: ExportAll<A>) -> (r: Result<Vec<ExportAll<A>>, TransformError>)
        requires
            self.wf(),
        ensures
            match r {
                Ok(v) => rewrite_all_spec(self.key@, self.config@, strings_view(self.group@), decl@) == Ok::<Seq<ExportAllView<A>>, Fault>(all_views(v@)),
                Err(e) => rewrite_all_spec(self.key@, self.config@, strings_view(self.group@), decl@) == Err::<Seq<ExportAllView<A>>, Fault>(e.fault()),
            },
    {
        if decl.type_only || decl.with.is_some() {
            return Ok(single_all(decl));
        }
        proof {
            reveal_strlit("*");
            assert("*"@ =~= seq!['*']);
        }
        let path = match self.path_for("*") {
            Ok(p) => p,
            Err(e) => {
                return Err(e);
            },
        };
        Ok(single_all(ExportAll { span: decl.span, src: path, type_only: false, with: None }))
    }
}

} // verus!
