//! Semantic-version acceptance and ordering, through the `version_compare`
//! crate.

use vstd::prelude::*;

verus! {

/// Whether `version_compare`'s parser accepts the string as a version.
pub uninterp spec fn is_semver(s: Seq<char>) -> bool;

/// What `version_compare` answers when asked whether `a` orders strictly
/// above `b`: `None` when it rejects either string.
pub uninterp spec fn semver_gt(a: Seq<char>, b: Seq<char>) -> Option<bool>;

/// Relies on `version_compare::Version::from`: it returns `Some` exactly when
/// the string splits into version parts of which at least one is numeric, or
/// into no parts at all.
#[verifier::external_body]
pub(crate) fn semver_accepts(s: &str) -> (r: bool)
    ensures
        r == is_semver(s@),
{
    version_compare::Version::from(s).is_some()
}

/// Relies on `version_compare::compare_to` with `Cmp::Gt`: `Ok(true)` exactly
/// when both strings parse and the first orders strictly above the second,
/// `Err` exactly when either string is rejected by the parser.
#[verifier::external_body]
fn semver_compare_gt(a: &str, b: &str) -> (r: Option<bool>)
    ensures
        r == semver_gt(a@, b@),
{
    match version_compare::compare_to(a, b, version_compare::Cmp::Gt) {
        Ok(g) => Some(g),
        Err(()) => None,
    }
}

/// Decides the release: true exactly when the comparison primitive orders the
/// file version strictly above the tag. A tag (or file version) that the
/// primitive rejects never raises an error: the decision degrades to false.
pub fn check_should_release(version_in_file: &str, latest_tag: &str) -> (r: bool)
    ensures
        r == (semver_gt(version_in_file@, latest_tag@) == Some(true)),
{
    match semver_compare_gt(version_in_file, latest_tag) {
        Some(g) => g,
        None => false,
    }
}

} // verus!
