use sunzip::conflict::{resolve_conflict, verdict, ConflictOutcome};
use sunzip::resolver::{ChecksumMatch, ChecksumWidth};

const HELLO_ISO_HDLC: u64 = 0x3610a686;

#[test]
fn missing_destination_is_written() {
    assert_eq!(resolve_conflict(HELLO_ISO_HDLC, 5, None, false), ConflictOutcome::Written(5));
    assert_eq!(resolve_conflict(0, 0, None, false), ConflictOutcome::Written(0));
    assert_eq!(resolve_conflict(7, 12, None, true), ConflictOutcome::Written(12));
}

#[test]
fn force_overwrite_always_writes() {
    let contents: [&[u8]; 3] = [b"hello", b"", b"something else"];
    for existing in contents {
        for checksum in [HELLO_ISO_HDLC, 0, u64::MAX, 42] {
            assert_eq!(
                resolve_conflict(checksum, 9, Some(existing), true),
                ConflictOutcome::Written(9)
            );
        }
    }
}

#[test]
fn identical_file_is_skipped_with_the_matching_algorithm() {
    assert_eq!(
        resolve_conflict(HELLO_ISO_HDLC, 5, Some(b"hello"), false),
        ConflictOutcome::SkippedIdentical("ISO_HDLC".to_string())
    );
    assert_eq!(
        resolve_conflict(0x995dc9bbdf1939fa, 9, Some(b"123456789"), false),
        ConflictOutcome::SkippedIdentical("XZ".to_string())
    );
}

#[test]
fn different_file_is_skipped_as_unverifiable() {
    assert_eq!(
        resolve_conflict(HELLO_ISO_HDLC, 5, Some(b"world"), false),
        ConflictOutcome::SkippedUnverifiable
    );
    assert_eq!(
        resolve_conflict(0x1_3610a686, 5, Some(b"hello"), false),
        ConflictOutcome::SkippedUnverifiable
    );
}

#[test]
fn verdict_tells_a_match_from_the_lack_of_one() {
    let found = ChecksumMatch { algorithm_name: "MEF".to_string(), width: ChecksumWidth::Bits32 };
    assert_eq!(verdict(Some(found)), ConflictOutcome::SkippedIdentical("MEF".to_string()));
    assert_eq!(verdict(None), ConflictOutcome::SkippedUnverifiable);
}

#[test]
fn only_a_written_outcome_writes() {
    assert!(ConflictOutcome::Written(0).writes());
    assert!(ConflictOutcome::Written(77).writes());
    assert!(!ConflictOutcome::SkippedIdentical("XZ".to_string()).writes());
    assert!(!ConflictOutcome::SkippedUnverifiable.writes());
}

#[test]
fn extracting_twice_over_matching_files_skips_twice() {
    let entries: [(&str, u64, &[u8]); 2] =
        [("a.txt", 0x3610a686, b"hello"), ("sub/b.txt", 0x3a771143, b"world")];
    let mut files: Vec<(String, Vec<u8>)> =
        entries.iter().map(|(name, _, content)| (name.to_string(), content.to_vec())).collect();
    for _run in 0..2 {
        let mut writes = 0;
        for (name, checksum, content) in entries {
            let place = files.iter().position(|(path, _)| path == name);
            let existing = place.map(|at| files[at].1.clone());
            let outcome = resolve_conflict(checksum, content.len(), existing.as_deref(), false);
            assert_eq!(outcome, ConflictOutcome::SkippedIdentical("ISO_HDLC".to_string()));
            if outcome.writes() {
                writes += 1;
                files.push((name.to_string(), content.to_vec()));
            }
        }
        assert_eq!(writes, 0);
        assert_eq!(files.len(), 2);
    }
}
