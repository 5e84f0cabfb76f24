//! What it means for one text to occur inside another, and the `std` string
//! queries that decide it.

use vstd::prelude::*;

verus! {

/// `pattern` stands in `s` at position `at`.
pub open spec fn occurs_at(s: Seq<char>, pattern: Seq<char>, at: int) -> bool {
    &&& 0 <= at
    &&& at + pattern.len() <= s.len()
    &&& s.subrange(at, at + pattern.len()) == pattern
}

/// `pattern` stands somewhere in `s`.
pub open spec fn has_infix(s: Seq<char>, pattern: Seq<char>) -> bool {
    exists|at: int| occurs_at(s, pattern, at)
}

/// `s` ends with `pattern`.
pub open spec fn has_suffix(s: Seq<char>, pattern: Seq<char>) -> bool {
    occurs_at(s, pattern, s.len() - pattern.len())
}

/// `s` begins with `pattern`.
pub open spec fn has_prefix(s: Seq<char>, pattern: Seq<char>) -> bool {
    occurs_at(s, pattern, 0)
}

/// `str::contains` with a string pattern. Assumed: it answers whether the
/// pattern's characters stand, in order and adjacent, somewhere in `s`.
#[verifier::external_body]
pub(crate) fn contains(s: &str, pattern: &str) -> (found: bool)
    ensures
        found == has_infix(s@, pattern@),
{
    s.contains(pattern)
}

/// `str::ends_with` with a string pattern. Assumed: it answers whether the
/// last characters of `s` are those of the pattern.
#[verifier::external_body]
pub(crate) fn ends_with(s: &str, pattern: &str) -> (found: bool)
    ensures
        found == has_suffix(s@, pattern@),
{
    s.ends_with(pattern)
}

/// `str::starts_with` with a string pattern. Assumed: it answers whether the
/// first characters of `s` are those of the pattern.
#[verifier::external_body]
pub(crate) fn starts_with(s: &str, pattern: &str) -> (found: bool)
    ensures
        found == has_prefix(s@, pattern@),
{
    s.starts_with(pattern)
}

/// `str::eq`. Assumed: two string slices are equal exactly when they hold the
/// same characters.
#[verifier::external_body]
pub(crate) fn same_text(a: &str, b: &str) -> (same: bool)
    ensures
        same == (a@ == b@),
{
    a == b
}

} // verus!
