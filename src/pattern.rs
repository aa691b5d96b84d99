//! Package and member patterns: anchoring and matching.
use vstd::prelude::*;

verus! {

#[verifier::external_type_specification]
#[verifier::external_body]
pub struct ExPatternError(swc_cached::regex::Error);

/// Whether `pattern` compiles as a regular expression.
pub uninterp spec fn regex_valid(pattern: Seq<char>) -> bool;

/// The groups of the first match of `pattern` in `text` (group 0 is the whole
/// match, a group that took no part is empty), or `None` without a match.
pub uninterp spec fn regex_captures(pattern: Seq<char>, text: Seq<char>) -> Option<Seq<Seq<char>>>;

pub open spec fn strings_view(v: Seq<String>) -> Seq<Seq<char>> {
    v.map_values(|s: String| s@)
}

pub open spec fn groups_view(g: Option<Vec<String>>) -> Option<Seq<Seq<char>>> {
    match g {
        Some(v) => Some(strings_view(v@)),
        None => None,
    }
}

/// The lone pattern `*` is the catch-all: it stands for `.*`.
pub open spec fn wildcard(p: Seq<char>) -> Seq<char> {
    if p == seq!['*'] {
        seq!['.', '*']
    } else {
        p
    }
}

/// A pattern that states neither anchor is wrapped in `^(?:` and `)$`, so that
/// it matches whole names only, alternations included.
pub open spec fn anchored(p: Seq<char>) -> Seq<char> {
    if p.len() > 0 && (p[0] == '^' || p.last() == '$') {
        p
    } else {
        seq!['^', '(', '?', ':'] + wildcard(p) + seq![')', '$']
    }
}

/// Relies on swc_cached's `CachedRegex::new`: it fails exactly when `pattern`
/// is not a valid regular expression.
#[verifier::external_body]
pub(crate) fn compile(pattern: &str) -> (r: Result<(), swc_cached::regex::Error>)
    ensures
        r is Ok <==> regex_valid(pattern@),
{
    swc_cached::regex::CachedRegex::new(pattern).map(|_| ())
}

/// Relies on `Regex::captures`, on the regex that `CachedRegex::new` compiled
/// or kept for `pattern`: the groups of the first match, each as a string.
#[verifier::external_body]
pub(crate) fn captures(pattern: &str, text: &str) -> (r: Result<Option<Vec<String>>, swc_cached::regex::Error>)
    ensures
        r is Ok <==> regex_valid(pattern@),
        r matches Ok(g) ==> groups_view(g) == regex_captures(pattern@, text@),
{
    let re = swc_cached::regex::CachedRegex::new(pattern)?;
    Ok(re.captures(text).map(
        |c| c.iter().map(|m| m.map_or(String::new(), |m| m.as_str().to_string())).collect(),
    ))
}

/// Wraps `p` in `^(?:` and `)$` unless it starts with `^` or ends with `$`;
/// the lone pattern `*` becomes `^(?:.*)$`.
pub fn anchor(p: &str) -> (r: String)
    ensures
        r@ == anchored(p@),
{
    let n = p.unicode_len();
    if n > 0 && (p.get_char(0) == '^' || p.get_char(n - 1) == '$') {
        return String::from_str(p);
    }
    proof {
        reveal_strlit("^(?:");
        reveal_strlit(")$");
        reveal_strlit(".*");
    }
    let mut r = String::from_str("^(?:");
    if n == 1 && p.get_char(0) == '*' {
        assert(p@ =~= seq!['*']);
        r.append(".*");
    } else {
        assert(p@ != seq!['*']);
        r.append(p);
    }
    r.append(")$");
    assert(r@ =~= anchored(p@));
    r
}

} // verus!
