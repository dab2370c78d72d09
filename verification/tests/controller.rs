use sunzip::catalogue::{crc_32, crc_64};
use sunzip::conflict::{resolve_conflict, ConflictOutcome};
use sunzip::controller::{handle_entry, ArchiveEntry};
use sunzip::report::checksum_hex;

const HELLO_ISO_HDLC: u64 = 0x3610a686;

fn entry(raw_checksum: u64, compressed_checksum: u64, content: &[u8]) -> ArchiveEntry {
    ArchiveEntry {
        name: "a.txt".to_string(),
        raw_checksum,
        compressed_checksum,
        content: content.to_vec(),
    }
}

#[test]
fn written_entries_have_no_diagnostics() {
    let absent = handle_entry(&entry(HELLO_ISO_HDLC, 1, b"hello"), "out/a.txt", None, false, false);
    assert_eq!(absent.outcome, ConflictOutcome::Written(5));
    assert!(absent.diagnostics.is_empty());
    let forced = handle_entry(&entry(HELLO_ISO_HDLC, 1, b"hello"), "out/a.txt", Some(b"hello"), true, false);
    assert_eq!(forced.outcome, ConflictOutcome::Written(5));
    assert!(forced.diagnostics.is_empty());
    let both = handle_entry(&entry(3, 1, b""), "out/a.txt", None, true, true);
    assert_eq!(both.outcome, ConflictOutcome::Written(0));
    assert!(both.diagnostics.is_empty());
}

#[test]
fn kept_file_is_reported_with_the_whole_catalogue() {
    let handling = handle_entry(&entry(HELLO_ISO_HDLC, 0x11, b"hello"), "out/a.txt", Some(b"hello"), false, false);
    assert_eq!(handling.outcome, ConflictOutcome::SkippedIdentical("ISO_HDLC".to_string()));
    let lines = handling.diagnostics;
    assert_eq!(lines.len(), 20);
    assert_eq!(
        lines[0],
        format!(
            "out/a.txt already exists with CRC {} ({} compressed)",
            checksum_hex(HELLO_ISO_HDLC),
            checksum_hex(0x11)
        )
    );
    for (at, (digest, name)) in crc_64(b"hello").iter().enumerate() {
        assert_eq!(
            lines[1 + at],
            format!("calculating CRC 64 {}: {}", name, checksum_hex(*digest))
        );
    }
    for (at, (digest, name)) in crc_32(b"hello").iter().enumerate() {
        assert_eq!(
            lines[7 + at],
            format!("calculating CRC 32 {}: {}", name, checksum_hex(u64::from(*digest)))
        );
    }
    assert_eq!(lines[19], "ISO_HDLC matches successfully");
}

#[test]
fn unverifiable_file_is_reported_with_a_warning() {
    let handling = handle_entry(&entry(HELLO_ISO_HDLC, 0x11, b"hello"), "out/a.txt", Some(b"world"), false, false);
    assert_eq!(handling.outcome, ConflictOutcome::SkippedUnverifiable);
    assert_eq!(handling.diagnostics.len(), 20);
    assert_eq!(handling.diagnostics[19], "WARNING: no valid CRC32 match found!");
}

#[test]
fn quiet_mode_keeps_the_outcome_and_drops_the_report() {
    let handling = handle_entry(&entry(HELLO_ISO_HDLC, 0x11, b"hello"), "out/a.txt", Some(b"hello"), false, true);
    assert_eq!(handling.outcome, ConflictOutcome::SkippedIdentical("ISO_HDLC".to_string()));
    assert!(handling.diagnostics.is_empty());
}

#[test]
fn outcome_is_that_of_the_conflict_policy() {
    let contents: [Option<&[u8]>; 4] = [None, Some(b"hello"), Some(b"world"), Some(b"")];
    for existing in contents {
        for checksum in [HELLO_ISO_HDLC, 0, u64::MAX] {
            for force in [false, true] {
                let handling = handle_entry(&entry(checksum, 0, b"hello"), "p", existing, force, false);
                assert_eq!(handling.outcome, resolve_conflict(checksum, 5, existing, force));
            }
        }
    }
}
