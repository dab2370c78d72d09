//! What to do with an archive entry whose destination may already exist.
//!
//! An entry is written unless a file is already there and overwriting was
//! not asked for. In that case the file stays as it is, and the outcome says
//! whether some algorithm of the catalogue confirms that it holds the entry's
//! content.

use vstd::prelude::*;
use crate::resolver::{match_view, resolve, resolved, ChecksumMatch, ChecksumWidth};

verus! {

/// What happened to one entry during extraction.
#[derive(Clone, Debug, PartialEq, Eq)]
pub enum ConflictOutcome {
    /// The entry's bytes were written; the number says how many.
    Written(usize),
    /// Nothing was written: the file that is there has the entry's checksum
    /// under the named algorithm.
    SkippedIdentical(String),
    /// Nothing was written, and no algorithm of the catalogue gives the
    /// entry's checksum for the file that is there.
    SkippedUnverifiable,
}

/// A `ConflictOutcome` as plain values.
pub enum OutcomeView {
    Written(nat),
    SkippedIdentical(Seq<char>),
    SkippedUnverifiable,
}

impl View for ConflictOutcome {
    type V = OutcomeView;

    open spec fn view(&self) -> OutcomeView {
        match self {
            ConflictOutcome::Written(count) => OutcomeView::Written(*count as nat),
            ConflictOutcome::SkippedIdentical(name) => OutcomeView::SkippedIdentical(name@),
            ConflictOutcome::SkippedUnverifiable => OutcomeView::SkippedUnverifiable,
        }
    }
}

/// The outcome for a file that is kept, given what the search for its
/// checksum found.
pub open spec fn verdict_of(found: Option<(Seq<char>, ChecksumWidth)>) -> OutcomeView {
    match found {
        Some(hit) => OutcomeView::SkippedIdentical(hit.0),
        None => OutcomeView::SkippedUnverifiable,
    }
}

/// The outcome for an entry with checksum `entry_checksum` and
/// `entry_length` bytes, where the destination holds `existing` (`None`
/// where no file is there).
///
/// Overwriting on request comes before any look at checksums.
pub open spec fn conflict_outcome(
    entry_checksum: u64,
    entry_length: nat,
    existing: Option<Seq<u8>>,
    force_overwrite: bool,
) -> OutcomeView {
    if force_overwrite || existing is None {
        OutcomeView::Written(entry_length)
    } else {
        verdict_of(resolved(existing->0, entry_checksum))
    }
}

/// What the destination holds after the outcome: the entry's content where
/// it was written, and what was there before in every other case.
pub open spec fn destination_after(
    outcome: OutcomeView,
    existing: Option<Seq<u8>>,
    entry_content: Seq<u8>,
) -> Option<Seq<u8>> {
    match outcome {
        OutcomeView::Written(_) => Some(entry_content),
        _ => existing,
    }
}

/// The content of an optional buffer as plain values.
pub open spec fn content_view(content: Option<&[u8]>) -> Option<Seq<u8>> {
    match content {
        Some(bytes) => Some(bytes@),
        None => None,
    }
}

impl ConflictOutcome {
    /// Whether the entry's bytes go to the destination.
    pub fn writes(&self) -> (written: bool)
        ensures
            written == (self@ is Written),
    {
        match self {
            ConflictOutcome::Written(_) => true,
            _ => false,
        }
    }
}

/// The outcome for a file that is kept: identical under the algorithm that
/// was found, or unverifiable where none was.
pub fn verdict(found: Option<ChecksumMatch>) -> (outcome: ConflictOutcome)
    ensures
        outcome@ == verdict_of(match_view(found)),
{
    match found {
        Some(hit) => ConflictOutcome::SkippedIdentical(hit.algorithm_name),
        None => ConflictOutcome::SkippedUnverifiable,
    }
}

/// Decides what happens to an entry of `entry_length` bytes whose recorded
/// checksum is `entry_checksum`.
///
/// `existing_content` is what the destination file holds, or `None` where
/// there is no such file. The entry is written where nothing is there or
/// where `force_overwrite` is set, whatever the checksums say. Otherwise the
/// file is kept, and the outcome tells a confirmed match from the lack of
/// one.
pub fn resolve_conflict(
    entry_checksum: u64,
    entry_length: usize,
    existing_content: Option<&[u8]>,
    force_overwrite: bool,
) -> (outcome: ConflictOutcome)
    ensures
        outcome@ == conflict_outcome(
            entry_checksum,
            entry_length as nat,
            content_view(existing_content),
            force_overwrite,
        ),
        force_overwrite ==> outcome@ == OutcomeView::Written(entry_length as nat),
{
    if force_overwrite {
        return ConflictOutcome::Written(entry_length);
    }
    match existing_content {
        Some(content) => verdict(resolve(content, entry_checksum)),
        None => ConflictOutcome::Written(entry_length),
    }
}

/// Overwriting on request always wins: whatever the destination holds and
/// whatever the entry's checksum is, the entry is written.
pub proof fn lemma_force_overwrite_writes(
    entry_checksum: u64,
    entry_length: nat,
    existing: Option<Seq<u8>>,
)
    ensures
        conflict_outcome(entry_checksum, entry_length, existing, true) == OutcomeView::Written(
            entry_length,
        ),
{
}

/// A skipped entry leaves the destination as it was, so extracting it again
/// gives the same outcome: where the file that is there has the entry's
/// checksum under some algorithm of the catalogue, the entry is skipped as
/// identical, nothing is written, and a second extraction skips it as
/// identical under the same algorithm.
pub proof fn lemma_matching_entry_is_skipped_again(
    entry_checksum: u64,
    entry_content: Seq<u8>,
    existing: Seq<u8>,
)
    requires
        resolved(existing, entry_checksum) is Some,
    ensures
        ({
            let first = conflict_outcome(
                entry_checksum,
                entry_content.len(),
                Some(existing),
                false,
            );
            let left = destination_after(first, Some(existing), entry_content);
            &&& first is SkippedIdentical
            &&& left == Some(existing)
            &&& conflict_outcome(entry_checksum, entry_content.len(), left, false) == first
        }),
{
}

} // verus!
