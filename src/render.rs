//! Rendering of path templates and normalization of the rendered path.
use vstd::prelude::*;
use crate::pattern::{groups_view, strings_view};

verus! {

#[verifier::external_type_specification]
#[verifier::external_body]
pub struct ExRegistry<'reg>(handlebars::Handlebars<'reg>);

#[verifier::external_type_specification]
#[verifier::external_body]
pub struct ExRenderError(handlebars::RenderError);

/// What `template` renders to in strict mode, with `matches` and `member`
/// bound, `memberMatches` bound only when given, and the helpers `lowerCase`,
/// `upperCase`, `camelCase` and `kebabCase`; `None` where rendering fails,
/// a reference to an absent binding included.
pub uninterp spec fn rendered(
    template: Seq<char>,
    matches: Seq<Seq<char>>,
    member: Seq<char>,
    member_matches: Option<Seq<Seq<char>>>,
) -> Option<Seq<char>>;

/// The names of the helpers that a registry holds.
pub uninterp spec fn registered_helpers(r: handlebars::Handlebars<'static>) -> Set<Seq<char>>;

/// Whether a registry renders in strict mode.
pub uninterp spec fn strict_mode(r: handlebars::Handlebars<'static>) -> bool;

/// A `{{` that no `}}` has closed yet stands before position `n` of `t`.
pub open spec fn in_mustache(t: Seq<char>, n: int) -> bool
    decreases n,
{
    if n <= 0 || n > t.len() {
        false
    } else if t[n - 1] == '}' {
        false
    } else if n >= 2 && t[n - 2] == '{' && t[n - 1] == '{' {
        true
    } else {
        in_mustache(t, n - 1)
    }
}

/// The template holds a `>` inside `{{ .. }}`, which is how a partial is
/// called (`{{> p}}`, `{{~> p}}`, `{{#> p}}`). Path templates have no use for
/// partials, and the template engine does not stop a partial that calls
/// itself.
pub open spec fn calls_partial(t: Seq<char>) -> bool {
    exists|j: int| 0 <= j < t.len() && t[j] == '>' && #[trigger] in_mustache(t, j)
}

/// Whether `t` calls a partial.
pub fn has_partial_call(t: &str) -> (r: bool)
    ensures
        r == calls_partial(t@),
{
    let n = t.unicode_len();
    let mut inside = false;
    let mut i: usize = 0;
    while i < n
        invariant
            n == t@.len(),
            i <= n,
            inside == in_mustache(t@, i as int),
            forall|j: int| 0 <= j < i ==> !(t@[j] == '>' && #[trigger] in_mustache(t@, j)),
        decreases n - i,
    {
        let c = t.get_char(i);
        if c == '>' && inside {
            return true;
        }
        if c == '}' {
            inside = false;
        } else if i >= 1 && c == '{' && t.get_char(i - 1) == '{' {
            inside = true;
        }
        i = i + 1;
    }
    false
}

/// Relies on `Handlebars::new`: a registry in non-strict mode.
#[verifier::external_body]
fn new_registry() -> (r: handlebars::Handlebars<'static>)
    ensures
        !strict_mode(r),
{
    handlebars::Handlebars::new()
}

/// Relies on `Handlebars::set_strict_mode`: a reference to an absent binding
/// fails to render; the helpers stay.
#[verifier::external_body]
fn set_strict(r: &mut handlebars::Handlebars<'static>)
    ensures
        strict_mode(*final(r)),
        registered_helpers(*final(r)) == registered_helpers(*old(r)),
{
    r.set_strict_mode(true);
}

/// Relies on `Handlebars::register_helper` and `str::to_lowercase`: adds the
/// helper `lowerCase`.
#[verifier::external_body]
fn register_lower_case(r: &mut handlebars::Handlebars<'static>)
    ensures
        registered_helpers(*final(r)) == registered_helpers(*old(r)).insert("lowerCase"@),
        strict_mode(*final(r)) == strict_mode(*old(r)),
{
    r.register_helper("lowerCase", Box::new(
        |h: &handlebars::Helper<'_, '_>, _: &handlebars::Handlebars<'_>, _: &handlebars::Context,
         _: &mut handlebars::RenderContext<'_, '_>, out: &mut dyn handlebars::Output|
         -> handlebars::HelperResult {
            let param = h.param(0).and_then(|v| v.value().as_str()).unwrap_or("");
            out.write(param.to_lowercase().as_ref())?;
            Ok(())
        },
    ));
}

/// Relies on `Handlebars::register_helper` and `str::to_uppercase`: adds the
/// helper `upperCase`.
#[verifier::external_body]
fn register_upper_case(r: &mut handlebars::Handlebars<'static>)
    ensures
        registered_helpers(*final(r)) == registered_helpers(*old(r)).insert("upperCase"@),
        strict_mode(*final(r)) == strict_mode(*old(r)),
{
    r.register_helper("upperCase", Box::new(
        |h: &handlebars::Helper<'_, '_>, _: &handlebars::Handlebars<'_>, _: &handlebars::Context,
         _: &mut handlebars::RenderContext<'_, '_>, out: &mut dyn handlebars::Output|
         -> handlebars::HelperResult {
            let param = h.param(0).and_then(|v| v.value().as_str()).unwrap_or("");
            out.write(param.to_uppercase().as_ref())?;
            Ok(())
        },
    ));
}

/// Relies on `Handlebars::register_helper` and convert_case's
/// `Casing::to_case(Case::Camel)`: adds the helper `camelCase`.
#[verifier::external_body]
fn register_camel_case(r: &mut handlebars::Handlebars<'static>)
    ensures
        registered_helpers(*final(r)) == registered_helpers(*old(r)).insert("camelCase"@),
        strict_mode(*final(r)) == strict_mode(*old(r)),
{
    r.register_helper("camelCase", Box::new(
        |h: &handlebars::Helper<'_, '_>, _: &handlebars::Handlebars<'_>, _: &handlebars::Context,
         _: &mut handlebars::RenderContext<'_, '_>, out: &mut dyn handlebars::Output|
         -> handlebars::HelperResult {
            let param = h.param(0).and_then(|v| v.value().as_str()).unwrap_or("");
            out.write(convert_case::Casing::to_case(&param, convert_case::Case::Camel).as_ref())?;
            Ok(())
        },
    ));
}

/// Relies on `Handlebars::register_helper` and convert_case's
/// `Casing::to_case(Case::Kebab)`: adds the helper `kebabCase`.
#[verifier::external_body]
fn register_kebab_case(r: &mut handlebars::Handlebars<'static>)
    ensures
        registered_helpers(*final(r)) == registered_helpers(*old(r)).insert("kebabCase"@),
        strict_mode(*final(r)) == strict_mode(*old(r)),
{
    r.register_helper("kebabCase", Box::new(
        |h: &handlebars::Helper<'_, '_>, _: &handlebars::Handlebars<'_>, _: &handlebars::Context,
         _: &mut handlebars::RenderContext<'_, '_>, out: &mut dyn handlebars::Output|
         -> handlebars::HelperResult {
            let param = h.param(0).and_then(|v| v.value().as_str()).unwrap_or("");
            out.write(convert_case::Casing::to_case(&param, convert_case::Case::Kebab).as_ref())?;
            Ok(())
        },
    ));
}

/// The template engine, in strict mode and with the four case helpers.
pub struct Renderer {
    registry: handlebars::Handlebars<'static>,
}

impl Renderer {
    /// The registry renders in strict mode and holds the four case helpers.
    pub closed spec fn wf(&self) -> bool {
        strict_mode(self.registry) && registered_helpers(self.registry).contains("lowerCase"@)
            && registered_helpers(self.registry).contains("upperCase"@)
            && registered_helpers(self.registry).contains("camelCase"@)
            && registered_helpers(self.registry).contains("kebabCase"@)
    }

    pub fn new() -> (r: Renderer)
        ensures
            r.wf(),
    {
        let mut registry = new_registry();
        set_strict(&mut registry);
        register_lower_case(&mut registry);
        register_upper_case(&mut registry);
        register_camel_case(&mut registry);
        register_kebab_case(&mut registry);
        Renderer { registry }
    }

    /// Relies on `Handlebars::render_template`, over the context
    /// `{ matches, member, memberMatches }` (without `memberMatches` when absent),
    /// on a template that calls no partial.
    #[verifier::external_body]
    pub(crate) fn render(
        &self,
        template: &str,
        matches: &Vec<String>,
        member: &str,
        member_matches: &Option<Vec<String>>,
    ) -> (r: Result<String, handlebars::RenderError>)
        requires
            self.wf(),
            !calls_partial(template@),
        ensures
            r is Ok <==> rendered(template@, strings_view(matches@), member@, groups_view(*member_matches)) is Some,
            r matches Ok(s) ==> rendered(template@, strings_view(matches@), member@, groups_view(*member_matches)) == Some(s@),
    {
        let data: std::collections::BTreeMap<&str, handlebars::JsonValue> =
            [("matches", handlebars::to_json(matches)), ("member", handlebars::to_json(member))]
                .into_iter()
                .chain(member_matches.iter().map(|m| ("memberMatches", handlebars::to_json(m))))
                .collect();
        self.registry.render_template(template, &data)
    }
}

/// `s` with each run of consecutive `/` collapsed to one `/`.
pub open spec fn collapse_slashes(s: Seq<char>) -> Seq<char>
    decreases s.len(),
{
    if s.len() == 0 {
        s
    } else {
        let head = collapse_slashes(s.drop_last());
        if s.last() == '/' && s.len() >= 2 && s[s.len() - 2] == '/' {
            head
        } else {
            head.push(s.last())
        }
    }
}

/// `s` holds no two consecutive `/`.
pub open spec fn no_double_slash(s: Seq<char>) -> bool {
    forall|i: int| 0 <= i < s.len() - 1 ==> !(#[trigger] s[i] == '/' && s[i + 1] == '/')
}

/// Collapsing keeps the last character and never leaves two `/` in a row.
pub proof fn lemma_collapse_slashes(s: Seq<char>)
    ensures
        no_double_slash(collapse_slashes(s)),
        s.len() > 0 ==> collapse_slashes(s).len() > 0 && collapse_slashes(s).last() == s.last(),
    decreases s.len(),
{
    if s.len() > 0 {
        lemma_collapse_slashes(s.drop_last());
    }
}

/// Collapsing twice is collapsing once.
pub proof fn lemma_collapse_idempotent(s: Seq<char>)
    requires
        no_double_slash(s),
    ensures
        collapse_slashes(s) == s,
    decreases s.len(),
{
    if s.len() > 0 {
        lemma_collapse_idempotent(s.drop_last());
        assert(s.drop_last().push(s.last()) =~= s);
    }
}

/// A path normalizes alike with or without one more `/` beside a `/`.
pub proof fn lemma_collapse_ignores_extra_slash(a: Seq<char>, b: Seq<char>)
    ensures
        collapse_slashes(a.push('/') + b) == collapse_slashes(a.push('/').push('/') + b),
    decreases b.len(),
{
    let x = a.push('/');
    let y = a.push('/').push('/');
    if b.len() == 0 {
        assert(x + b =~= x);
        assert(y + b =~= y);
        assert(y.drop_last() =~= x);
    } else {
        lemma_collapse_ignores_extra_slash(a, b.drop_last());
        assert((x + b).drop_last() =~= x + b.drop_last());
        assert((y + b).drop_last() =~= y + b.drop_last());
        let n = (x + b).len();
        let m = (y + b).len();
        assert((x + b)[n - 2] == (y + b)[m - 2]);
    }
}

/// Collapses each run of consecutive `/` in `path` to a single `/`.
pub fn normalize_path(path: &str) -> (r: String)
    ensures
        r@ == collapse_slashes(path@),
        no_double_slash(r@),
{
    let n = path.unicode_len();
    let mut out = String::new();
    let mut i: usize = 0;
    while i < n
        invariant
            n == path@.len(),
            i <= n,
            out@ == collapse_slashes(path@.subrange(0, i as int)),
        decreases n - i,
    {
        let c = path.get_char(i);
        assert(path@.subrange(0, i as int + 1).drop_last() =~= path@.subrange(0, i as int));
        if !(c == '/' && i > 0 && path.get_char(i - 1) == '/') {
            out.append(path.substring_char(i, i + 1));
        }
        i = i + 1;
    }
    assert(path@.subrange(0, n as int) =~= path@);
    proof {
        lemma_collapse_slashes(path@);
    }
    out
}

} // verus!
