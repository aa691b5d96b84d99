//! The pattern table and the pass over a module's top-level statements.
use vstd::prelude::*;
use crate::ast::{ExportAll, ItemView, ModuleItem, NamedExport, items_view};
use crate::config::{Config, PackageConfig, PackageView, Transform, TransformView};
use crate::pattern::{anchor, anchored, captures, compile, regex_captures, regex_valid, strings_view};
use crate::render::Renderer;
use crate::render::{calls_partial, has_partial_call};
use crate::rewrite::{
    Fault, rule_templates_safe, templates_safe, Rewriter, TransformError, all_views, named_views, rewrite_all_spec, rewrite_named_spec,
};

verus! {

/// The first rule whose pattern matches `name`, with the groups it captured.
pub open spec fn lookup(
    entries: Seq<(Seq<char>, PackageView)>,
    name: Seq<char>,
) -> Option<(PackageView, Seq<Seq<char>>)>
    decreases entries.len(),
{
    if entries.len() == 0 {
        None
    } else {
        match regex_captures(entries[0].0, name) {
            Some(g) => Some((entries[0].1, g)),
            None => lookup(entries.drop_first(), name),
        }
    }
}

pub open spec fn wrap_named<A, S>(v: Seq<crate::ast::NamedExportView<A>>) -> Seq<ItemView<A, S>> {
    v.map_values(|d: crate::ast::NamedExportView<A>| ItemView::<A, S>::ExportNamed(d))
}

pub open spec fn wrap_all<A, S>(v: Seq<crate::ast::ExportAllView<A>>) -> Seq<ItemView<A, S>> {
    v.map_values(|d: crate::ast::ExportAllView<A>| ItemView::<A, S>::ExportAll(d))
}

/// What one top-level statement becomes.
pub open spec fn transform_item<A, S>(
    entries: Seq<(Seq<char>, PackageView)>,
    item: ItemView<A, S>,
) -> Result<Seq<ItemView<A, S>>, Fault> {
    match item {
        ItemView::ExportNamed(d) => match d.src {
            Some(src) => match lookup(entries, src) {
                Some((cfg, g)) => match rewrite_named_spec(src, cfg, g, d) {
                    Ok(v) => Ok(wrap_named::<A, S>(v)),
                    Err(f) => Err(f),
                },
                None => Ok(seq![item]),
            },
            None => Ok(seq![item]),
        },
        ItemView::ExportAll(d) => match lookup(entries, d.src) {
            Some((cfg, g)) => match rewrite_all_spec(d.src, cfg, g, d) {
                Ok(v) => Ok(wrap_all::<A, S>(v)),
                Err(f) => Err(f),
            },
            None => Ok(seq![item]),
        },
        ItemView::Other(_) => Ok(seq![item]),
    }
}

/// What a statement list becomes: each statement's result in order, or the
/// first failure.
pub open spec fn transform_items<A, S>(
    entries: Seq<(Seq<char>, PackageView)>,
    items: Seq<ItemView<A, S>>,
) -> Result<Seq<ItemView<A, S>>, Fault>
    decreases items.len(),
{
    if items.len() == 0 {
        Ok(seq![])
    } else {
        match transform_items(entries, items.drop_last()) {
            Ok(a) => match transform_item(entries, items.last()) {
                Ok(b) => Ok(a + b),
                Err(f) => Err(f),
            },
            Err(f) => Err(f),
        }
    }
}

/// Once a prefix of the statements has failed, the rest do not matter.
pub proof fn lemma_items_failed<A, S>(
    entries: Seq<(Seq<char>, PackageView)>,
    items: Seq<ItemView<A, S>>,
    k: int,
)
    requires
        0 <= k <= items.len(),
        transform_items(entries, items.subrange(0, k)) is Err,
    ensures
        transform_items(entries, items) == transform_items(entries, items.subrange(0, k)),
    decreases items.len(),
{
    if items.len() == k {
        assert(items.subrange(0, k) =~= items);
    } else {
        assert(items.drop_last().subrange(0, k) =~= items.subrange(0, k));
        lemma_items_failed(entries, items.drop_last(), k);
    }
}

/// The compiled configuration: anchored package patterns with their rules, in
/// order, and the template renderer.
pub struct ModularizeExports {
    pub renderer: Renderer,
    pub packages: Vec<(String, PackageConfig)>,
}

pub open spec fn entries_view(v: Seq<(String, PackageConfig)>) -> Seq<(Seq<char>, PackageView)> {
    v.map_values(|p: (String, PackageConfig)| (p.0@, p.1@))
}

pub open spec fn anchored_entries(v: Seq<(String, PackageConfig)>) -> Seq<(Seq<char>, PackageView)> {
    v.map_values(|p: (String, PackageConfig)| (anchored(p.0@), p.1@))
}

impl View for ModularizeExports {
    type V = Seq<(Seq<char>, PackageView)>;

    open spec fn view(&self) -> Seq<(Seq<char>, PackageView)> {
        entries_view(self.packages@)
    }
}

impl ModularizeExports {
    /// The renderer is set up, every package pattern compiles, and so does every
    /// anchored member pattern; no template calls a partial.
    pub open spec fn wf(&self) -> bool {
        &&& self.renderer.wf()
        &&& forall|i: int| 0 <= i < self@.len() ==> regex_valid(#[trigger] self@[i].0)
            && rules_valid(self@[i].1.transform) && templates_safe(self@[i].1.transform)
    }
}

/// Every anchored member pattern of the rule compiles.
pub open spec fn rules_valid(t: TransformView) -> bool {
    match t {
        TransformView::Template(_) => true,
        TransformView::Rules(v) => patterns_valid(v),
    }
}

/// Every anchored pattern of the member rules compiles.
pub open spec fn patterns_valid(v: Seq<(Seq<char>, Seq<char>)>) -> bool {
    forall|q: int| 0 <= q < v.len() ==> regex_valid(anchored(#[trigger] v[q].0))
}

/// Checks that every anchored member pattern of `t` compiles.
fn check_rules(t: &Transform) -> (r: Result<(), TransformError>)
    ensures
        r is Ok <==> rules_valid(t@),
        r matches Err(e) ==> e is InvalidPattern,
{
    match t {
        Transform::String(_) => Ok(()),
        Transform::Vec(rules) => {
            let ghost all = crate::config::pairs_view(rules@);
            let n = rules.len();
            let mut q: usize = 0;
            while q < n
                invariant
                    n == rules@.len(),
                    n == all.len(),
                    q <= n,
                    all == crate::config::pairs_view(rules@),
                    t@ == TransformView::Rules(all),
                    forall|j: int| 0 <= j < q ==> regex_valid(anchored(#[trigger] all[j].0)),
                decreases n - q,
            {
                assert(all[q as int] == (rules@[q as int].0@, rules@[q as int].1@));
                let key = anchor(rules[q].0.as_str());
                if compile(key.as_str()).is_err() {
                    assert(!regex_valid(anchored(all[q as int].0)));
                    assert(!patterns_valid(all));
                    return Err(TransformError::InvalidPattern { pattern: key });
                }
                q = q + 1;
            }
            Ok(())
        },
    }
}

/// Checks that no path template of `t` calls a partial.
fn check_templates(t: &Transform) -> (r: Result<(), TransformError>)
    ensures
        r is Ok <==> templates_safe(t@),
        r matches Err(e) ==> e is PartialCall,
{
    match t {
        Transform::String(s) => {
            if has_partial_call(s.as_str()) {
                return Err(TransformError::PartialCall { template: s.clone() });
            }
            Ok(())
        },
        Transform::Vec(rules) => {
            let ghost all = crate::config::pairs_view(rules@);
            let n = rules.len();
            let mut q: usize = 0;
            while q < n
                invariant
                    n == rules@.len(),
                    n == all.len(),
                    q <= n,
                    all == crate::config::pairs_view(rules@),
                    t@ == TransformView::Rules(all),
                    forall|j: int| 0 <= j < q ==> !calls_partial(#[trigger] all[j].1),
                decreases n - q,
            {
                assert(all[q as int] == (rules@[q as int].0@, rules@[q as int].1@));
                if has_partial_call(rules[q].1.as_str()) {
                    assert(calls_partial(all[q as int].1));
                    assert(!rule_templates_safe(all));
                    return Err(TransformError::PartialCall { template: rules[q].1.clone() });
                }
                q = q + 1;
            }
            Ok(())
        },
    }
}

/// The package's anchored pattern and member patterns compile, and its
/// templates call no partial.
pub open spec fn entry_ok(e: (String, PackageConfig)) -> bool {
    regex_valid(anchored(e.0@)) && rules_valid(e.1.transform@) && templates_safe(e.1.transform@)
}

/// Builds the pass from its configuration: each package pattern is anchored
/// and must compile.
pub fn modularize_exports(config: Config) -> (r: Result<ModularizeExports, TransformError>)
    requires
        config.keys_distinct(),
    ensures
        r is Ok <==> forall|i: int|
            0 <= i < config.packages@.len() ==> regex_valid(anchored(#[trigger] config.packages@[i].0@))
                && rules_valid(config.packages@[i].1.transform@)
                && templates_safe(config.packages@[i].1.transform@),
        r matches Ok(t) ==> t.wf() && t@ == anchored_entries(config.packages@),
        r matches Err(e) ==> e is InvalidPattern || e is PartialCall,
{
    let ghost orig = config.packages@;
    let mut rest = config.packages;
    let mut packages: Vec<(String, PackageConfig)> = Vec::new();
    let n = rest.len();
    let mut i: usize = 0;
    while i < n
        invariant
            n == orig.len(),
            orig == config.packages@,
            i <= n,
            rest@ == orig.subrange(i as int, n as int),
            entries_view(packages@) == anchored_entries(orig.subrange(0, i as int)),
            forall|j: int| 0 <= j < i ==> entry_ok(#[trigger] orig[j]),
        decreases n - i,
    {
        let (k, v) = rest.remove(0);
        assert(orig[i as int] == (k, v));
        let key = anchor(k.as_str());
        if compile(key.as_str()).is_err() {
            assert(!regex_valid(anchored(orig[i as int].0@)));
            return Err(TransformError::InvalidPattern { pattern: key });
        }
        match check_rules(&v.transform) {
            Ok(()) => {
                assert(rules_valid(orig[i as int].1.transform@));
            },
            Err(e) => {
                assert(!rules_valid(orig[i as int].1.transform@));
                return Err(e);
            },
        }
        match check_templates(&v.transform) {
            Ok(()) => {},
            Err(e) => {
                assert(!templates_safe(orig[i as int].1.transform@));
                return Err(e);
            },
        }
        assert(regex_valid(anchored(orig[i as int].0@)) && rules_valid(orig[i as int].1.transform@)
            && templates_safe(orig[i as int].1.transform@));
        let ghost before = packages@;
        packages.push((key, v));
        assert(orig.subrange(0, i as int + 1) =~= orig.subrange(0, i as int).push(orig[i as int]));
        assert(entries_view(packages@) =~= entries_view(before).push((key@, v@)));
        assert(anchored_entries(orig.subrange(0, i as int + 1)) =~= anchored_entries(orig.subrange(0, i as int)).push((anchored(k@), v@)));
        assert(rest@ =~= orig.subrange(i as int + 1, n as int));
        assert(entry_ok(orig[i as int]));
        i = i + 1;
    }
    assert(orig.subrange(0, n as int) =~= orig);
    let t = ModularizeExports { renderer: Renderer::new(), packages };
    assert forall|j: int| 0 <= j < t@.len() implies regex_valid(#[trigger] t@[j].0) && rules_valid(t@[j].1.transform)
        && templates_safe(t@[j].1.transform) by {
        assert(t@[j] == anchored_entries(orig)[j]);
    }
    Ok(t)
}

/// Appends each statement of `v`, as a module item, to `out`.
fn push_named<A, S>(out: &mut Vec<ModuleItem<A, S>>, v: Vec<NamedExport<A>>)
    ensures
        items_view(final(out)@) == items_view(old(out)@) + wrap_named::<A, S>(named_views(v@)),
{
    let ghost start = items_view(out@);
    let ghost all = named_views(v@);
    let mut rest = v;
    let n = rest.len();
    let mut i: usize = 0;
    while i < n
        invariant
            n == all.len(),
            i <= n,
            rest@.len() == n - i,
            named_views(rest@) == all.subrange(i as int, n as int),
            items_view(out@) == start + wrap_named::<A, S>(all.subrange(0, i as int)),
        decreases n - i,
    {
        assert(named_views(rest@)[0] == rest@[0]@);
        let ghost prev = rest@;
        let d = rest.remove(0);
        assert(rest@ =~= prev.subrange(1, prev.len() as int));
        let ghost before = out@;
        out.push(ModuleItem::ExportNamed(d));
        assert(items_view(out@) =~= items_view(before).push(ItemView::ExportNamed(d@)));
        assert(all.subrange(0, i as int + 1) =~= all.subrange(0, i as int).push(all[i as int]));
        assert(wrap_named::<A, S>(all.subrange(0, i as int + 1))
            =~= wrap_named::<A, S>(all.subrange(0, i as int)).push(ItemView::ExportNamed(all[i as int])));
        assert forall|j: int| 0 <= j < rest@.len() implies #[trigger] named_views(rest@)[j] == all[i as int + 1 + j] by {
            assert(named_views(prev)[j + 1] == prev[j + 1]@);
        }
        assert(named_views(rest@) =~= all.subrange(i as int + 1, n as int));
        i = i + 1;
    }
    assert(all.subrange(0, n as int) =~= all);
}

/// Appends each statement of `v`, as a module item, to `out`.
fn push_all<A, S>(out: &mut Vec<ModuleItem<A, S>>, v: Vec<ExportAll<A>>)
    ensures
        items_view(final(out)@) == items_view(old(out)@) + wrap_all::<A, S>(all_views(v@)),
{
    let ghost start = items_view(out@);
    let ghost all = all_views(v@);
    let mut rest = v;
    let n = rest.len();
    let mut i: usize = 0;
    while i < n
        invariant
            n == all.len(),
            i <= n,
            rest@.len() == n - i,
            all_views(rest@) == all.subrange(i as int, n as int),
            items_view(out@) == start + wrap_all::<A, S>(all.subrange(0, i as int)),
        decreases n - i,
    {
        assert(all_views(rest@)[0] == rest@[0]@);
        let ghost prev = rest@;
        let d = rest.remove(0);
        assert(rest@ =~= prev.subrange(1, prev.len() as int));
        let ghost before = out@;
        out.push(ModuleItem::ExportAll(d));
        assert(items_view(out@) =~= items_view(before).push(ItemView::ExportAll(d@)));
        assert(all.subrange(0, i as int + 1) =~= all.subrange(0, i as int).push(all[i as int]));
        assert(wrap_all::<A, S>(all.subrange(0, i as int + 1))
            =~= wrap_all::<A, S>(all.subrange(0, i as int)).push(ItemView::ExportAll(all[i as int])));
        assert forall|j: int| 0 <= j < rest@.len() implies #[trigger] all_views(rest@)[j] == all[i as int + 1 + j] by {
            assert(all_views(prev)[j + 1] == prev[j + 1]@);
        }
        assert(all_views(rest@) =~= all.subrange(i as int + 1, n as int));
        i = i + 1;
    }
    assert(all.subrange(0, n as int) =~= all);
}

fn single_item<A, S>(item: ModuleItem<A, S>) -> (r: Vec<ModuleItem<A, S>>)
    ensures
        items_view(r@) == seq![item@],
{
    let mut r = Vec::new();
    r.push(item);
    assert(items_view(r@) =~= seq![item@]);
    r
}

impl ModularizeExports {
    /// The rewriter for the first package pattern that matches `name`, if any.
    pub fn should_rewrite<'a>(&'a self, name: Option<&'a str>) -> (r: Option<Rewriter<'a>>)
        requires
            self.wf(),
        ensures
            match name {
                None => r is None,
                Some(n) => match lookup(self@, n@) {
                    None => r is None,
                    Some(found) => r matches Some(rw) && rw.config@ == found.0
                        && strings_view(rw.group@) == found.1 && rw.key@ == n@ && rw.wf(),
                },
            },
    {
        match name {
            None => None,
            Some(text) => {
                let n = self.packages.len();
                let mut i: usize = 0;
                assert(self@.subrange(0, n as int) =~= self@);
                while i < n
                    invariant
                        n == self@.len(),
                        i <= n,
                        self.wf(),
                        name == Some(text),
                        lookup(self@, text@) == lookup(self@.subrange(i as int, n as int), text@),
                    decreases n - i,
                {
                    let ghost rest = self@.subrange(i as int, n as int);
                    assert(rest.drop_first() =~= self@.subrange(i as int + 1, n as int));
                    assert(rest[0] == self@[i as int]);
                    assert(regex_valid(self@[i as int].0));
                    let entry = &self.packages[i];
                    assert(self@[i as int] == (entry.0@, entry.1@));
                    match captures(entry.0.as_str(), text) {
                        Ok(Some(group)) => {
                            assert(lookup(rest, text@) == Some((entry.1@, strings_view(group@))));
                            let rw = Rewriter { renderer: &self.renderer, key: text, config: &entry.1, group };
                            return Some(rw);
                        },
                        _ => {},
                    }
                    i = i + 1;
                }
                None
            },
        }
    }

    /// Rewrites one top-level statement.
    pub fn fold_item<A, S>(&self, item: ModuleItem<A, S>) -> (r: Result<Vec<ModuleItem<A, S>>, TransformError>)
        requires
            self.wf(),
        ensures
            match r {
                Ok(v) => transform_item(self@, item@) == Ok::<Seq<ItemView<A, S>>, Fault>(items_view(v@)),
                Err(e) => transform_item(self@, item@) == Err::<Seq<ItemView<A, S>>, Fault>(e.fault()),
            },
    {
        match item {
            ModuleItem::ExportNamed(decl) => {
                let src = match &decl.src {
                    Some(s) => s.clone(),
                    None => {
                        return Ok(single_item(ModuleItem::ExportNamed(decl)));
                    },
                };
                match self.should_rewrite(Some(src.as_str())) {
                    Some(rewriter) => {
                        let rewritten = match rewriter.rewrite_named(decl) {
                            Ok(v) => v,
                            Err(e) => {
                                return Err(e);
                            },
                        };
                        let mut out: Vec<ModuleItem<A, S>> = Vec::new();
                        push_named(&mut out, rewritten);
                        assert(items_view(out@) =~= wrap_named::<A, S>(named_views(rewritten@)));
                        Ok(out)
                    },
                    None => Ok(single_item(ModuleItem::ExportNamed(decl))),
                }
            },
            ModuleItem::ExportAll(decl) => {
                let src = decl.src.clone();
                match self.should_rewrite(Some(src.as_str())) {
                    Some(rewriter) => {
                        let rewritten = match rewriter.rewrite_all(decl) {
                            Ok(v) => v,
                            Err(e) => {
                                return Err(e);
                            },
                        };
                        let mut out: Vec<ModuleItem<A, S>> = Vec::new();
                        push_all(&mut out, rewritten);
                        assert(items_view(out@) =~= wrap_all::<A, S>(all_views(rewritten@)));
                        Ok(out)
                    },
                    None => Ok(single_item(ModuleItem::ExportAll(decl))),
                }
            },
            ModuleItem::Other(x) => Ok(single_item(ModuleItem::Other(x))),
        }
    }

    /// Rewrites every matching export statement of a module body, keeping the
    /// order of the statements; stops at the first failure.
    pub fn fold_module<A, S>(&self, body: Vec<ModuleItem<A, S>>) -> (r: Result<Vec<ModuleItem<A, S>>, TransformError>)
        requires
            self.wf(),
        ensures
            match r {
                Ok(v) => transform_items(self@, items_view(body@)) == Ok::<Seq<ItemView<A, S>>, Fault>(items_view(v@)),
                Err(e) => transform_items(self@, items_view(body@)) == Err::<Seq<ItemView<A, S>>, Fault>(e.fault()),
            },
    {
        let ghost all = items_view(body@);
        let mut rest = body;
        let mut out: Vec<ModuleItem<A, S>> = Vec::new();
        let n = rest.len();
        let mut i: usize = 0;
        assert(all.subrange(0, 0) =~= Seq::<ItemView<A, S>>::empty());
        assert(items_view(out@) =~= Seq::<ItemView<A, S>>::empty());
        while i < n
            invariant
                n == all.len(),
                all == items_view(body@),
                i <= n,
                self.wf(),
                rest@.len() == n - i,
                items_view(rest@) == all.subrange(i as int, n as int),
                transform_items(self@, all.subrange(0, i as int)) == Ok::<Seq<ItemView<A, S>>, Fault>(items_view(out@)),
            decreases n - i,
        {
            assert(items_view(rest@)[0] == rest@[0]@);
            let ghost prev = rest@;
            let item = rest.remove(0);
            assert(rest@ =~= prev.subrange(1, prev.len() as int));
            assert(all.subrange(0, i as int + 1).drop_last() =~= all.subrange(0, i as int));
            assert(all.subrange(0, i as int + 1).last() == item@);
            let produced = match self.fold_item(item) {
                Ok(v) => v,
                Err(e) => {
                    proof {
                        assert(transform_items(self@, all.subrange(0, i as int + 1)) == Err::<Seq<ItemView<A, S>>, Fault>(e.fault()));
                        lemma_items_failed(self@, all, i as int + 1);
                    }
                    return Err(e);
                },
            };
            let ghost before = items_view(out@);
            let ghost added = items_view(produced@);
            let mut produced = produced;
            out.append(&mut produced);
            assert(items_view(out@) =~= before + added);
            assert forall|j: int| 0 <= j < rest@.len() implies #[trigger] items_view(rest@)[j] == all[i as int + 1 + j] by {
                assert(items_view(prev)[j + 1] == prev[j + 1]@);
            }
            assert(items_view(rest@) =~= all.subrange(i as int + 1, n as int));
            i = i + 1;
        }
        assert(all.subrange(0, n as int) =~= all);
        Ok(out)
    }
}

} // verus!
