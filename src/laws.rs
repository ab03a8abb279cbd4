//! Laws of comparison and of the snapshot life cycle.

use vstd::prelude::*;

use crate::compare::compare_result;
use crate::verdict::{decided_outcome, must_write, snapshot_after};
use crate::Error;

verus! {

/// Any text compared with itself passes.
pub proof fn lemma_compare_reflexive(s: Seq<char>)
    ensures
        compare_result(s, s) == Ok::<(), Error>(()),
{
}

/// Two different texts compare as a `Difference`.
pub proof fn lemma_compare_differs(s1: Seq<char>, s2: Seq<char>)
    requires
        s1 != s2,
    ensures
        compare_result(s1, s2) == Err::<(), Error>(Error::Difference),
{
}

/// A check against a missing snapshot, in either mode, fails with `Created`
/// and leaves the file holding exactly `actual`.
pub proof fn lemma_missing_creates(actual: Seq<char>, update: bool)
    ensures
        decided_outcome(actual, None, update) == Err::<(), Error>(Error::Created),
        snapshot_after(actual, None, update) == Some(actual),
{
}

/// Right after a check has created the snapshot, a second check of the same
/// text in normal mode passes.
pub proof fn lemma_create_then_check(actual: Seq<char>, update: bool)
    ensures
        decided_outcome(actual, snapshot_after(actual, None, update), false) == Ok::<(), Error>(()),
{
}

/// In update mode, a snapshot that differs from `actual` makes the check fail
/// with `Updated` and leaves the file holding exactly `actual`.
pub proof fn lemma_update_differs(actual: Seq<char>, stored: Seq<char>)
    requires
        stored != actual,
    ensures
        decided_outcome(actual, Some(stored), true) == Err::<(), Error>(Error::Updated),
        snapshot_after(actual, Some(stored), true) == Some(actual),
{
}

/// In update mode, a snapshot equal to `actual` passes and is not written.
pub proof fn lemma_update_same(actual: Seq<char>)
    ensures
        decided_outcome(actual, Some(actual), true) == Ok::<(), Error>(()),
        !must_write(actual, Some(actual), true),
        snapshot_after(actual, Some(actual), true) == Some(actual),
{
}

} // verus!
