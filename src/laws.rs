//! Properties of the pass as a whole.
use vstd::prelude::*;
use crate::ast::ItemView;
use crate::config::PackageView;
use crate::pattern::{anchored, regex_captures, regex_valid};
use crate::render::{collapse_slashes, rendered};
use crate::rewrite::{Fault, member_rule_path, rewrite_all_spec};
use crate::transform::{lookup, transform_item, transform_items};

verus! {

/// The package source of a statement, if it has one.
pub open spec fn source_of<A, S>(item: ItemView<A, S>) -> Option<Seq<char>> {
    match item {
        ItemView::ExportNamed(d) => d.src,
        ItemView::ExportAll(d) => Some(d.src),
        ItemView::Other(_) => None,
    }
}

/// No package pattern matches the statement's source.
pub open spec fn unmatched<A, S>(entries: Seq<(Seq<char>, PackageView)>, item: ItemView<A, S>) -> bool {
    match source_of(item) {
        Some(s) => lookup(entries, s) is None,
        None => true,
    }
}

/// The statement is left as it is, or every statement it is rewritten into
/// has a source that no package pattern matches.
pub open spec fn rewrites_leave_pattern<A, S>(
    entries: Seq<(Seq<char>, PackageView)>,
    item: ItemView<A, S>,
) -> bool {
    match transform_item(entries, item) {
        Ok(out) => out == seq![item] || forall|j: int| 0 <= j < out.len() ==> unmatched(entries, #[trigger] out[j]),
        Err(_) => true,
    }
}

/// The pass over two lists one after the other is the pass over each.
pub proof fn lemma_transform_concat<A, S>(
    entries: Seq<(Seq<char>, PackageView)>,
    a: Seq<ItemView<A, S>>,
    b: Seq<ItemView<A, S>>,
)
    requires
        transform_items(entries, a) is Ok,
        transform_items(entries, b) is Ok,
    ensures
        transform_items(entries, a + b) == Ok::<Seq<ItemView<A, S>>, crate::rewrite::Fault>(
            transform_items(entries, a)->Ok_0 + transform_items(entries, b)->Ok_0,
        ),
    decreases b.len(),
{
    if b.len() == 0 {
        assert(a + b =~= a);
        assert(transform_items(entries, a)->Ok_0 + transform_items(entries, b)->Ok_0 =~= transform_items(entries, a)->Ok_0);
    } else {
        assert((a + b).drop_last() =~= a + b.drop_last());
        assert((a + b).last() == b.last());
        lemma_transform_concat(entries, a, b.drop_last());
        let x = transform_items(entries, a)->Ok_0;
        let y = transform_items(entries, b.drop_last())->Ok_0;
        let z = transform_item(entries, b.last())->Ok_0;
        assert(x + (y + z) =~= (x + y) + z);
    }
}

/// A statement that no package pattern matches passes unchanged.
pub proof fn lemma_unmatched_item<A, S>(entries: Seq<(Seq<char>, PackageView)>, item: ItemView<A, S>)
    requires
        unmatched(entries, item),
    ensures
        transform_item(entries, item) == Ok::<Seq<ItemView<A, S>>, crate::rewrite::Fault>(seq![item]),
{
    match item {
        ItemView::ExportNamed(d) => {},
        ItemView::ExportAll(d) => {},
        ItemView::Other(_) => {},
    }
}

/// A list of statements that no package pattern matches passes unchanged.
pub proof fn lemma_unmatched_unchanged<A, S>(
    entries: Seq<(Seq<char>, PackageView)>,
    items: Seq<ItemView<A, S>>,
)
    requires
        forall|j: int| 0 <= j < items.len() ==> unmatched(entries, #[trigger] items[j]),
    ensures
        transform_items(entries, items) == Ok::<Seq<ItemView<A, S>>, crate::rewrite::Fault>(items),
    decreases items.len(),
{
    if items.len() > 0 {
        assert(unmatched(entries, items[items.len() - 1]));
        lemma_unmatched_item(entries, items.last());
        assert forall|j: int| 0 <= j < items.drop_last().len() implies unmatched(entries, #[trigger] items.drop_last()[j]) by {
            assert(items.drop_last()[j] == items[j]);
        }
        lemma_unmatched_unchanged(entries, items.drop_last());
        assert(items.drop_last() + seq![items.last()] =~= items);
    } else {
        assert(items =~= Seq::<ItemView<A, S>>::empty());
    }
}

/// Running the pass again on its own output changes nothing, as long as each
/// statement it rewrote points at sources that no package pattern matches.
pub proof fn lemma_fixed_point<A, S>(
    entries: Seq<(Seq<char>, PackageView)>,
    items: Seq<ItemView<A, S>>,
)
    requires
        transform_items(entries, items) is Ok,
        forall|k: int| 0 <= k < items.len() ==> rewrites_leave_pattern(entries, #[trigger] items[k]),
    ensures
        transform_items(entries, transform_items(entries, items)->Ok_0) == transform_items(entries, items),
    decreases items.len(),
{
    if items.len() > 0 {
        let init = items.drop_last();
        assert forall|k: int| 0 <= k < init.len() implies rewrites_leave_pattern(entries, #[trigger] init[k]) by {
            assert(init[k] == items[k]);
        }
        lemma_fixed_point(entries, init);
        let p = transform_items(entries, init)->Ok_0;
        let q = transform_item(entries, items.last())->Ok_0;
        assert(rewrites_leave_pattern(entries, items[items.len() - 1]));
        if q == seq![items.last()] {
            assert(q.drop_last() =~= Seq::<ItemView<A, S>>::empty());
            assert(q.last() == items.last());
            assert(transform_items(entries, q.drop_last()) == Ok::<Seq<ItemView<A, S>>, crate::rewrite::Fault>(Seq::<ItemView<A, S>>::empty()));
            assert(transform_items(entries, q) == Ok::<Seq<ItemView<A, S>>, crate::rewrite::Fault>(Seq::<ItemView<A, S>>::empty() + q));
            assert(Seq::<ItemView<A, S>>::empty() + q =~= q);
        } else {
            lemma_unmatched_unchanged(entries, q);
        }
        lemma_transform_concat(entries, p, q);
    }
}

/// The first package pattern that matches a name decides its rule; later
/// ones are not consulted.
pub proof fn lemma_first_package_wins(entries: Seq<(Seq<char>, PackageView)>, name: Seq<char>, k: int)
    requires
        0 <= k < entries.len(),
        forall|j: int| 0 <= j < k ==> regex_captures(#[trigger] entries[j].0, name) is None,
        regex_captures(entries[k].0, name) is Some,
    ensures
        lookup(entries, name) == Some((entries[k].1, regex_captures(entries[k].0, name)->Some_0)),
    decreases k,
{
    if k > 0 {
        let rest = entries.drop_first();
        assert forall|j: int| 0 <= j < k - 1 implies regex_captures(#[trigger] rest[j].0, name) is None by {
            assert(rest[j] == entries[j + 1]);
        }
        assert(regex_captures(entries[0].0, name) is None);
        lemma_first_package_wins(rest, name, k - 1);
    }
}

/// The first member rule whose pattern matches a member decides its path;
/// later rules are not consulted.
pub proof fn lemma_first_member_rule_wins(
    key: Seq<char>,
    rules: Seq<(Seq<char>, Seq<char>)>,
    matches: Seq<Seq<char>>,
    member: Seq<char>,
    k: int,
)
    requires
        0 <= k < rules.len(),
        forall|j: int| 0 <= j <= k ==> regex_valid(anchored(#[trigger] rules[j].0)),
        forall|j: int| 0 <= j < k ==> regex_captures(anchored(#[trigger] rules[j].0), member) is None,
        regex_captures(anchored(rules[k].0), member) is Some,
    ensures
        member_rule_path(key, rules, matches, member) == match rendered(
            rules[k].1,
            matches,
            member,
            regex_captures(anchored(rules[k].0), member),
        ) {
            Some(s) => Ok::<Seq<char>, Fault>(collapse_slashes(s)),
            None => Err::<Seq<char>, Fault>(Fault::Render { package: key }),
        },
    decreases k,
{
    if k > 0 {
        let rest = rules.drop_first();
        assert forall|j: int| 0 <= j <= k - 1 implies regex_valid(anchored(#[trigger] rest[j].0)) by {
            assert(rest[j] == rules[j + 1]);
        }
        assert forall|j: int| 0 <= j < k - 1 implies regex_captures(anchored(#[trigger] rest[j].0), member) is None by {
            assert(rest[j] == rules[j + 1]);
        }
        assert(regex_valid(anchored(rules[0].0)));
        assert(regex_captures(anchored(rules[0].0), member) is None);
        lemma_first_member_rule_wins(key, rest, matches, member, k - 1);
    }
}

/// A type-only export, or one with an attributes clause, is never rewritten,
/// whatever pattern its source matches.
pub proof fn lemma_type_only_untouched<A, S>(entries: Seq<(Seq<char>, PackageView)>, item: ItemView<A, S>)
    requires
        match item {
            ItemView::ExportNamed(d) => d.type_only || d.with is Some,
            ItemView::ExportAll(d) => d.type_only || d.with is Some,
            ItemView::Other(_) => false,
        },
    ensures
        transform_item(entries, item) == Ok::<Seq<ItemView<A, S>>, Fault>(seq![item]),
{
    match item {
        ItemView::ExportNamed(d) => {
            assert(crate::transform::wrap_named::<A, S>(seq![d]) =~= seq![item]);
        },
        ItemView::ExportAll(d) => {
            assert(crate::transform::wrap_all::<A, S>(seq![d]) =~= seq![item]);
        },
        ItemView::Other(_) => {},
    }
}

/// `preventFullExport` has no effect on `export * from` statements.
pub proof fn lemma_export_all_ignores_prevent_full_export<A>(
    key: Seq<char>,
    cfg: PackageView,
    matches: Seq<Seq<char>>,
    d: crate::ast::ExportAllView<A>,
    prevent_full_export: bool,
)
    ensures
        rewrite_all_spec(key, (PackageView { prevent_full_export, ..cfg }), matches, d) == rewrite_all_spec(key, cfg, matches, d),
{
}

} // verus!
