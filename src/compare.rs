//! Text comparison through the `difference` crate.

use vstd::prelude::*;

use crate::Error;

verus! {

/// The text that `difference::Changeset` displays for a change from `orig` to
/// `edit`, split character by character.
pub uninterp spec fn changeset_text(orig: Seq<char>, edit: Seq<char>) -> Seq<char>;

/// The sizes for which a character-level changeset can be computed: its
/// table of `orig.len() * edit.len()` entries must be allocatable, and its
/// distance must fit in an `i32`.
pub open spec fn diff_fits(orig: Seq<char>, edit: Seq<char>) -> bool {
    &&& orig.len() + edit.len() <= i32::MAX
    &&& orig.len() * edit.len() <= isize::MAX / 8
}

/// Relies on `difference::Changeset::new(orig, edit, "")` and its `distance`
/// field: with an empty split the texts are compared character by character,
/// and the distance is `orig.len() + edit.len() - 2 * l` for a common
/// subsequence of length `l` that is complete when the texts are equal, so it
/// is zero exactly when they are equal.
#[verifier::external_body]
fn edit_distance(orig: &str, edit: &str) -> (d: i32)
    requires
        diff_fits(orig@, edit@),
    ensures
        d >= 0,
        (d == 0) == (orig@ == edit@),
{
    difference::Changeset::new(orig, edit, "").distance
}

/// Relies on `Display` of `difference::Changeset::new(orig, edit, "")`: the
/// text depends on the two strings alone.
#[verifier::external_body]
pub(crate) fn changeset_display(orig: &str, edit: &str) -> (r: String)
    requires
        diff_fits(orig@, edit@),
    ensures
        r@ == changeset_text(orig@, edit@),
{
    difference::Changeset::new(orig, edit, "").to_string()
}

/// Whether a comparison of `actual` with `expected` passes.
pub open spec fn same_text(actual: Seq<char>, expected: Seq<char>) -> bool {
    actual == expected
}

/// What comparing `actual` with `expected` returns.
pub open spec fn compare_result(actual: Seq<char>, expected: Seq<char>) -> Result<(), Error> {
    if same_text(actual, expected) {
        Ok(())
    } else {
        Err(Error::Difference)
    }
}

/// Compares `actual` with `expected`: `Ok` when the changeset between them
/// has distance zero, `Err(Error::Difference)` otherwise.
pub fn compare(actual: &str, expected: &str) -> (r: Result<(), Error>)
    requires
        diff_fits(expected@, actual@),
    ensures
        r == compare_result(actual@, expected@),
{
    if edit_distance(expected, actual) == 0 {
        Ok(())
    } else {
        Err(Error::Difference)
    }
}

/// The diff text from `expected` to `actual`, when it is asked for and the
/// two differ.
pub(crate) fn diff_report(actual: &str, expected: &str, show_diff: bool) -> (r: Option<String>)
    requires
        diff_fits(expected@, actual@),
    ensures
        r matches Some(t) ==> t@ == changeset_text(expected@, actual@),
        r is Some <==> (show_diff && !same_text(actual@, expected@)),
{
    if show_diff && compare(actual, expected).is_err() {
        Some(changeset_display(expected, actual))
    } else {
        None
    }
}

} // verus!
