//! The version-comparison policy.
//!
//! Both version strings are first stripped of a single leading lowercase `v`.
//! Where both parse as semantic versions, an update is needed exactly when the
//! latest version is greater in semantic-version precedence; where either does
//! not parse, the policy degrades to plain string inequality, so a tag that is
//! not a semantic version never makes the comparison fail. A separate, basic
//! comparison uses string inequality alone.

use vstd::prelude::*;
use vstd::string::StrSliceExecFns;
use vstd::string::StringExecFns;

verus! {

/// Whether `semver::Version::parse` accepts the string.
pub uninterp spec fn semver_ok(s: Seq<char>) -> bool;

/// Whether the first version is strictly greater than the second in the total
/// order of `semver::Version`. Meaningful where both strings parse.
pub uninterp spec fn semver_gt(a: Seq<char>, b: Seq<char>) -> bool;

/// Relies on `semver::Version::parse` and on the `Ord` of `semver::Version`:
/// whether a string parses, and how two parsed versions are ordered, depend on
/// the strings alone. The ordering is total and strict, so equal strings never
/// compare as greater, and at most one of two versions is greater than the
/// other.
#[verifier::external_body]
fn semver_compare(current: &str, latest: &str) -> (r: Option<bool>)
    ensures
        (r is Some) == (semver_ok(current@) && semver_ok(latest@)),
        (semver_ok(current@) && semver_ok(latest@)) ==> (r == Some(semver_gt(latest@, current@))),
        semver_gt(current@, latest@) ==> r != Some(true),
        current@ == latest@ ==> r != Some(true),
{
    match (semver::Version::parse(current), semver::Version::parse(latest)) {
        (Ok(cur), Ok(lat)) => Some(lat > cur),
        _ => None,
    }
}

/// The string with one leading lowercase `v` removed, if it has one.
pub open spec fn strip_v_spec(s: Seq<char>) -> Seq<char> {
    if s.len() > 0 && s[0] == 'v' {
        s.subrange(1, s.len() as int)
    } else {
        s
    }
}

/// The smart policy on already-stripped strings: semantic ordering where both
/// parse, string inequality otherwise.
pub open spec fn version_newer(current: Seq<char>, latest: Seq<char>) -> bool {
    if semver_ok(current) && semver_ok(latest) {
        semver_gt(latest, current)
    } else {
        latest != current
    }
}

/// The smart policy on raw strings: strip a leading `v` from each, then
/// compare as `version_newer` does.
pub open spec fn smart_update_needed(current: Seq<char>, latest: Seq<char>) -> bool {
    version_newer(strip_v_spec(current), strip_v_spec(latest))
}

/// The basic policy on raw strings: strip a leading `v` from each, then plain
/// string inequality — true whenever the two differ, newer or older.
pub open spec fn basic_update_needed(current: Seq<char>, latest: Seq<char>) -> bool {
    strip_v_spec(latest) != strip_v_spec(current)
}

/// Removes one leading lowercase `v`, case-sensitively: an uppercase `V` is
/// kept, and only the first character is considered.
pub fn strip_version_prefix(s: &str) -> (r: String)
    ensures
        r@ == strip_v_spec(s@),
{
    let n = s.unicode_len();
    if n > 0 && s.get_char(0) == 'v' {
        s.substring_char(1, n).to_owned()
    } else {
        s.to_owned()
    }
}

/// The smart comparison: true exactly when the latest version is newer than
/// the current one under semantic ordering, falling back to string inequality
/// where either stripped string is not a semantic version. Equal stripped
/// strings, and a latest version semantically below the current one, never
/// report an update.
pub fn version_requires_update(current: &str, latest: &str) -> (r: bool)
    ensures
        r == smart_update_needed(current@, latest@),
        strip_v_spec(current@) == strip_v_spec(latest@) ==> r == false,
        (semver_ok(strip_v_spec(current@)) && semver_ok(strip_v_spec(latest@)) && semver_gt(
            strip_v_spec(current@),
            strip_v_spec(latest@),
        )) ==> (r == false),
{
    let cur = strip_version_prefix(current);
    let lat = strip_version_prefix(latest);
    match semver_compare(cur.as_str(), lat.as_str()) {
        Some(newer) => newer,
        None => !lat.eq(&cur),
    }
}

/// The basic comparison: true exactly when the stripped strings differ.
pub fn version_differs(current: &str, latest: &str) -> (r: bool)
    ensures
        r == basic_update_needed(current@, latest@),
{
    let cur = strip_version_prefix(current);
    let lat = strip_version_prefix(latest);
    !lat.eq(&cur)
}

/// Stripping is idempotent on any string with at most one leading `v`, and a
/// string that does not begin with a lowercase `v` — an uppercase `V`
/// included — is returned unchanged.
pub proof fn lemma_strip_v(s: Seq<char>)
    ensures
        !(s.len() >= 2 && s[0] == 'v' && s[1] == 'v') ==> strip_v_spec(strip_v_spec(s))
            == strip_v_spec(s),
        s.len() > 0 && s[0] != 'v' ==> strip_v_spec(s) == s,
{
    if s.len() > 0 && s[0] == 'v' && !(s.len() >= 2 && s[1] == 'v') {
        let t = strip_v_spec(s);
        assert(t == s.subrange(1, s.len() as int));
        if t.len() > 0 {
            assert(t[0] == s[1]);
        }
        assert(strip_v_spec(t) == t);
    }
}

/// Semantic ordering drives the smart policy. For parseable versions `a`
/// strictly below `b` — so `b` is greater and, the order being strict and
/// total, `a` is not greater than `b` and neither is greater than itself —
/// the policy reports an update from `a` to `b`, none from `b` to `a`, and
/// none between equal versions.
pub proof fn lemma_semver_order_drives_policy(a: Seq<char>, b: Seq<char>)
    ensures
        semver_ok(a) && semver_ok(b) && semver_gt(b, a) ==> version_newer(a, b),
        semver_ok(a) && semver_ok(b) && !semver_gt(a, b) ==> !version_newer(b, a),
        !semver_gt(a, a) ==> !version_newer(a, a),
{
}

/// The previous lemma carried through the strip: a valid semantic version
/// begins with a digit, never with `v`, so for such strings the full smart
/// policy decides exactly as semantic ordering does.
pub proof fn lemma_semver_order_drives_smart_policy(a: Seq<char>, b: Seq<char>)
    requires
        a.len() > 0 && a[0] != 'v',
        b.len() > 0 && b[0] != 'v',
    ensures
        semver_ok(a) && semver_ok(b) && semver_gt(b, a) ==> smart_update_needed(a, b),
        semver_ok(a) && semver_ok(b) && !semver_gt(a, b) ==> !smart_update_needed(b, a),
        !semver_gt(a, a) ==> !smart_update_needed(a, a),
{
    assert(strip_v_spec(a) == a);
    assert(strip_v_spec(b) == b);
}

/// A tag that is not a semantic version never fails the smart policy: where
/// either side does not parse, the decision is plain string inequality.
pub proof fn lemma_parse_failure_falls_back(current: Seq<char>, latest: Seq<char>)
    ensures
        !semver_ok(latest) ==> version_newer(current, latest) == (latest != current),
        !semver_ok(current) ==> version_newer(current, latest) == (latest != current),
{
}

} // verus!
