//! Snapshot checking: compare a string produced at run time with the
//! recorded value of a snapshot, and decide whether the check passes, fails,
//! or (re)writes the snapshot.
//!
//! The library decides; the caller does the file work. It hands in what the
//! snapshot file holds (or that it is missing) and whether update mode is on,
//! and gets back a [`Verdict`]: the outcome, whether `actual` must be written
//! as the file's whole contents, and the diff text to show, if any.

use vstd::prelude::*;

mod compare;
mod laws;
mod verdict;

pub use compare::{changeset_text, compare, compare_result, diff_fits, same_text};
pub use laws::{
    lemma_compare_differs, lemma_compare_reflexive, lemma_create_then_check,
    lemma_missing_creates, lemma_update_differs, lemma_update_same,
};
pub use verdict::{
    check_snapshot, check_snapshot_no_diff, decided_outcome, diff_view, must_write, shown_diff,
    snapshot_after, snapshot_fits, stored_view, Verdict,
};

verus! {

#[verifier::external_type_specification]
#[verifier::external_body]
pub struct ExIoError(std::io::Error);

/// Why a snapshot check did not pass.
#[derive(Debug)]
pub enum Error {
    /// The snapshot file was missing and has been written with the actual value.
    Created,
    /// Update mode was on and the snapshot has been overwritten with the actual value.
    Updated,
    /// The actual value differs from the recorded one.
    Difference,
    /// The snapshot file could not be opened or created.
    File(std::io::Error),
    /// The snapshot file could not be read.
    Read(std::io::Error),
    /// The snapshot file could not be written.
    Write(std::io::Error),
}

} // verus!
