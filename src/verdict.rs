//! The decision of one snapshot check: create, compare, or compare and update.

use vstd::prelude::*;

use crate::compare::{
    changeset_display, changeset_text, compare, diff_fits, diff_report, same_text,
};
use crate::Error;

verus! {

/// What one snapshot check decided.
pub struct Verdict {
    /// Whether `actual` must now be written as the snapshot file's whole
    /// contents (creating the file, or truncating it first).
    pub write: bool,
    /// Diff text for the error stream, when one was asked for and there is a
    /// difference to show.
    pub diff: Option<String>,
    /// The result of the check once the write, if any, has succeeded.
    pub outcome: Result<(), Error>,
}

/// The recorded value, if the snapshot file exists.
pub open spec fn stored_view(stored: &Option<String>) -> Option<Seq<char>> {
    match stored {
        Some(s) => Some(s@),
        None => None,
    }
}

/// The sizes for which the check can compare `actual` with what is stored (an
/// empty text when nothing is).
pub open spec fn snapshot_fits(actual: Seq<char>, stored: Option<Seq<char>>) -> bool {
    match stored {
        Some(e) => diff_fits(e, actual),
        None => diff_fits(Seq::empty(), actual),
    }
}

/// The outcome of a check: a missing snapshot is created, which fails; an
/// equal one passes; a different one fails with `Updated` in update mode and
/// with `Difference` otherwise.
pub open spec fn decided_outcome(
    actual: Seq<char>,
    stored: Option<Seq<char>>,
    update: bool,
) -> Result<(), Error> {
    match stored {
        None => Err(Error::Created),
        Some(e) => if same_text(actual, e) {
            Ok(())
        } else if update {
            Err(Error::Updated)
        } else {
            Err(Error::Difference)
        },
    }
}

/// Whether the check writes `actual` to the snapshot file: when the file is
/// missing, and in update mode when the recorded value differs.
pub open spec fn must_write(actual: Seq<char>, stored: Option<Seq<char>>, update: bool) -> bool {
    match stored {
        None => true,
        Some(e) => update && !same_text(actual, e),
    }
}

/// What the snapshot file holds after the check and its write.
pub open spec fn snapshot_after(
    actual: Seq<char>,
    stored: Option<Seq<char>>,
    update: bool,
) -> Option<Seq<char>> {
    if must_write(actual, stored, update) {
        Some(actual)
    } else {
        stored
    }
}

/// The diff that a check with diff display shows: the change from the
/// recorded value (an empty text for a missing file) to `actual`, when the
/// two differ.
pub open spec fn shown_diff(actual: Seq<char>, stored: Option<Seq<char>>) -> Option<Seq<char>> {
    let base = match stored {
        Some(e) => e,
        None => Seq::empty(),
    };
    if same_text(actual, base) {
        None
    } else {
        Some(changeset_text(base, actual))
    }
}

/// The diff text carried by a verdict.
pub open spec fn diff_view(diff: Option<String>) -> Option<Seq<char>> {
    match diff {
        Some(t) => Some(t@),
        None => None,
    }
}

fn check_snapshot_diff_flag(
    actual: &str,
    stored: &Option<String>,
    update: bool,
    show_diff: bool,
) -> (r: Verdict)
    requires
        snapshot_fits(actual@, stored_view(stored)),
    ensures
        r.outcome == decided_outcome(actual@, stored_view(stored), update),
        r.write == must_write(actual@, stored_view(stored), update),
        diff_view(r.diff) == if show_diff {
            shown_diff(actual@, stored_view(stored))
        } else {
            None
        },
{
    match stored {
        None => {
            let empty = String::new();
            let diff = diff_report(actual, empty.as_str(), show_diff);
            Verdict { write: true, diff, outcome: Err(Error::Created) }
        },
        Some(expected) => {
            match compare(actual, expected.as_str()) {
                Ok(()) => Verdict { write: false, diff: None, outcome: Ok(()) },
                Err(e) => {
                    let diff = if show_diff {
                        Some(changeset_display(expected.as_str(), actual))
                    } else {
                        None
                    };
                    if update {
                        Verdict { write: true, diff, outcome: Err(Error::Updated) }
                    } else {
                        Verdict { write: false, diff, outcome: Err(e) }
                    }
                },
            }
        },
    }
}

/// Checks `actual` against the snapshot whose contents are `stored` (`None`
/// when the file does not exist), with update mode on when `update` holds,
/// and shows the diff of any difference.
pub fn check_snapshot(actual: &str, stored: &Option<String>, update: bool) -> (r: Verdict)
    requires
        snapshot_fits(actual@, stored_view(stored)),
    ensures
        r.outcome == decided_outcome(actual@, stored_view(stored), update),
        r.write == must_write(actual@, stored_view(stored), update),
        diff_view(r.diff) == shown_diff(actual@, stored_view(stored)),
{
    check_snapshot_diff_flag(actual, stored, update, true)
}

/// Checks `actual` as [`check_snapshot`] does, without showing a diff.
pub fn check_snapshot_no_diff(actual: &str, stored: &Option<String>, update: bool) -> (r: Verdict)
    requires
        snapshot_fits(actual@, stored_view(stored)),
    ensures
        r.outcome == decided_outcome(actual@, stored_view(stored), update),
        r.write == must_write(actual@, stored_view(stored), update),
        r.diff is None,
{
    check_snapshot_diff_flag(actual, stored, update, false)
}

} // verus!
