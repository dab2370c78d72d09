//! A model of a whole extraction: the entries of an archive are handled one
//! after the other against the files that are on disk, and each entry that is
//! written changes what the next ones find.

use vstd::prelude::*;
use crate::conflict::{conflict_outcome, destination_after, OutcomeView};
use crate::resolver::resolved;

verus! {

/// One entry of an archive: where it goes, the checksum recorded for it, and
/// its content.
pub struct EntryModel {
    pub destination: Seq<char>,
    pub checksum: u64,
    pub content: Seq<u8>,
}

/// What the file at `path` holds, or `None` where there is no such file.
pub open spec fn held(files: Map<Seq<char>, Seq<u8>>, path: Seq<char>) -> Option<Seq<u8>> {
    if files.dom().contains(path) {
        Some(files[path])
    } else {
        None
    }
}

/// The outcome of handling one entry against the files that are there.
pub open spec fn step_outcome(
    files: Map<Seq<char>, Seq<u8>>,
    entry: EntryModel,
    force_overwrite: bool,
) -> OutcomeView {
    conflict_outcome(
        entry.checksum,
        entry.content.len(),
        held(files, entry.destination),
        force_overwrite,
    )
}

/// The files after one entry has been handled.
pub open spec fn step_files(
    files: Map<Seq<char>, Seq<u8>>,
    entry: EntryModel,
    force_overwrite: bool,
) -> Map<Seq<char>, Seq<u8>> {
    let before = held(files, entry.destination);
    match destination_after(step_outcome(files, entry, force_overwrite), before, entry.content) {
        Some(content) => files.insert(entry.destination, content),
        None => files,
    }
}

/// The outcomes of handling all entries in order.
pub open spec fn run_outcomes(
    entries: Seq<EntryModel>,
    files: Map<Seq<char>, Seq<u8>>,
    force_overwrite: bool,
) -> Seq<OutcomeView>
    decreases entries.len(),
{
    if entries.len() == 0 {
        Seq::empty()
    } else {
        seq![step_outcome(files, entries[0], force_overwrite)] + run_outcomes(
            entries.drop_first(),
            step_files(files, entries[0], force_overwrite),
            force_overwrite,
        )
    }
}

/// The files after all entries have been handled in order.
pub open spec fn run_files(
    entries: Seq<EntryModel>,
    files: Map<Seq<char>, Seq<u8>>,
    force_overwrite: bool,
) -> Map<Seq<char>, Seq<u8>>
    decreases entries.len(),
{
    if entries.len() == 0 {
        files
    } else {
        run_files(
            entries.drop_first(),
            step_files(files, entries[0], force_overwrite),
            force_overwrite,
        )
    }
}

/// Every entry has a file at its destination whose content gives the entry's
/// checksum under some algorithm of the catalogue.
pub open spec fn all_entries_match(
    entries: Seq<EntryModel>,
    files: Map<Seq<char>, Seq<u8>>,
) -> bool {
    forall|i: int|
        0 <= i < entries.len() ==> {
            &&& files.dom().contains((#[trigger] entries[i]).destination)
            &&& resolved(files[entries[i].destination], entries[i].checksum) is Some
        }
}

/// Extraction without overwriting is idempotent on a destination that
/// already matches: where every entry finds a file with its checksum, every
/// entry is skipped as identical, no file changes, and a second extraction
/// gives the same outcomes and again changes nothing.
pub proof fn lemma_extraction_is_idempotent(
    entries: Seq<EntryModel>,
    files: Map<Seq<char>, Seq<u8>>,
)
    requires
        all_entries_match(entries, files),
    ensures
        run_outcomes(entries, files, false).len() == entries.len(),
        forall|i: int|
            0 <= i < entries.len() ==> (#[trigger] run_outcomes(entries, files, false)[i])
                is SkippedIdentical,
        run_files(entries, files, false) == files,
        run_outcomes(entries, run_files(entries, files, false), false) == run_outcomes(
            entries,
            files,
            false,
        ),
    decreases entries.len(),
{
    if entries.len() > 0 {
        let rest = entries.drop_first();
        assert(step_files(files, entries[0], false) =~= files);
        assert forall|i: int| 0 <= i < rest.len() implies {
            &&& files.dom().contains((#[trigger] rest[i]).destination)
            &&& resolved(files[rest[i].destination], rest[i].checksum) is Some
        } by {
            assert(rest[i] == entries[i + 1]);
        }
        lemma_extraction_is_idempotent(rest, files);
        assert forall|i: int| 0 <= i < entries.len() implies (#[trigger] run_outcomes(
            entries,
            files,
            false,
        )[i]) is SkippedIdentical by {
            if i > 0 {
                assert(run_outcomes(entries, files, false)[i] == run_outcomes(
                    rest,
                    files,
                    false,
                )[i - 1]);
            }
        }
    }
}

} // verus!
