//! The handling of one entry during extraction: the decision and the lines
//! that go with it, from one pass over the catalogue.

use vstd::prelude::*;
use crate::catalogue::{crc_32, crc_64};
use crate::conflict::{conflict_outcome, content_view, verdict, ConflictOutcome};
use crate::report::{is_report, report_lines};
use crate::resolver::{first_match, narrow_digests, narrow_view, wide_digests, wide_view};
use crate::text::texts;

verus! {

/// One file's record in an archive, as the reader hands it over.
#[derive(Clone, Debug, PartialEq, Eq)]
pub struct ArchiveEntry {
    /// The path of the entry inside the archive.
    pub name: String,
    /// The checksum that the archive records for the content.
    pub raw_checksum: u64,
    /// The checksum that the archive records for the stored bytes.
    pub compressed_checksum: u64,
    /// The content, unpacked.
    pub content: Vec<u8>,
}

/// What was decided for an entry, and what there is to say about it.
#[derive(Clone, Debug, PartialEq, Eq)]
pub struct EntryHandling {
    /// What happens to the entry.
    pub outcome: ConflictOutcome,
    /// The report on the file that was found at the destination; empty where
    /// the entry is written, and in quiet mode.
    pub diagnostics: Vec<String>,
}

/// Whether the file at the destination is compared with the entry: it is
/// where there is one and overwriting was not asked for.
pub open spec fn compares(existing: Option<Seq<u8>>, force_overwrite: bool) -> bool {
    existing is Some && !force_overwrite
}

/// Decides what happens to an entry, and reports on the file that is in its
/// way.
///
/// `destination` names the place in the report. `existing_content` is what
/// the destination file holds, or `None` where there is no such file. The
/// outcome is that of `resolve_conflict` for the entry's checksum and the
/// length of its content. Where the file is compared with the entry, the
/// diagnostics are the report on it, unless `quiet` is set; in every other
/// case there are none.
pub fn handle_entry(
    entry: &ArchiveEntry,
    destination: &str,
    existing_content: Option<&[u8]>,
    force_overwrite: bool,
    quiet: bool,
) -> (handling: EntryHandling)
    ensures
        handling.outcome@ == conflict_outcome(
            entry.raw_checksum,
            entry.content@.len(),
            content_view(existing_content),
            force_overwrite,
        ),
        !compares(content_view(existing_content), force_overwrite) || quiet
            ==> handling.diagnostics@.len() == 0,
        compares(content_view(existing_content), force_overwrite) && !quiet ==> is_report(
            texts(handling.diagnostics@),
            destination@,
            entry.raw_checksum,
            entry.compressed_checksum,
            wide_digests(content_view(existing_content)->0),
            narrow_digests(content_view(existing_content)->0),
        ),
{
    if force_overwrite {
        return EntryHandling {
            outcome: ConflictOutcome::Written(entry.content.len()),
            diagnostics: Vec::new(),
        };
    }
    match existing_content {
        None => EntryHandling {
            outcome: ConflictOutcome::Written(entry.content.len()),
            diagnostics: Vec::new(),
        },
        Some(content) => {
            let wide = crc_64(content);
            let narrow = crc_32(content);
            assert(wide_view(wide@) =~= wide_digests(content@));
            assert(narrow_view(narrow@) =~= narrow_digests(content@));
            let found = first_match(wide.as_slice(), narrow.as_slice(), entry.raw_checksum);
            let diagnostics = report_lines(
                destination,
                entry.raw_checksum,
                entry.compressed_checksum,
                wide.as_slice(),
                narrow.as_slice(),
                quiet,
            );
            EntryHandling { outcome: verdict(found), diagnostics }
        },
    }
}

} // verus!
