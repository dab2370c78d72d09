use sevenz_rust::{Password, SevenZArchiveEntry, SevenZReader, SevenZWriter};
use std::io::{Cursor, Read};
use sunzip::conflict::{resolve_conflict, ConflictOutcome};
use sunzip::paths::{destination_for, entry_name_for};
use sunzip::resolver::{resolve, ChecksumMatch, ChecksumWidth};

fn archive_of(sources: &[(&str, &str)]) -> Vec<u8> {
    let mut writer = SevenZWriter::new(Cursor::new(Vec::new())).unwrap();
    for (path, content) in sources {
        let mut entry = SevenZArchiveEntry::new();
        entry.name = entry_name_for(path);
        writer.push_archive_entry(entry, Some(Cursor::new(content.as_bytes().to_vec()))).unwrap();
    }
    writer.finish().unwrap().into_inner()
}

fn entries_of(archive: Vec<u8>) -> Vec<(String, u64, Vec<u8>)> {
    let length = archive.len() as u64;
    let mut reader = SevenZReader::new(Cursor::new(archive), length, Password::empty()).unwrap();
    let mut entries = Vec::new();
    reader
        .for_each_entries(|entry, content| {
            let mut bytes = Vec::new();
            content.read_to_end(&mut bytes)?;
            entries.push((entry.name.clone(), entry.crc, bytes));
            Ok(true)
        })
        .unwrap();
    entries
}

fn extract(
    entries: &[(String, u64, Vec<u8>)],
    files: &mut Vec<(String, Vec<u8>)>,
    force: bool,
) -> Vec<ConflictOutcome> {
    let mut outcomes = Vec::new();
    for (name, checksum, content) in entries {
        let path = destination_for(name, "archive", "/tmp/work");
        let place = files.iter().position(|(held, _)| *held == path);
        let existing = place.map(|at| files[at].1.clone());
        let outcome = resolve_conflict(*checksum, content.len(), existing.as_deref(), force);
        if outcome.writes() {
            match place {
                Some(at) => files[at].1 = content.clone(),
                None => files.push((path, content.clone())),
            }
        }
        outcomes.push(outcome);
    }
    outcomes
}

#[test]
fn archive_keeps_names_and_content() {
    let entries = entries_of(archive_of(&[("a.txt", "hello"), ("sub/b.txt", "world")]));
    let names: Vec<&str> = entries.iter().map(|entry| entry.0.as_str()).collect();
    assert_eq!(names, vec!["a.txt", "sub/b.txt"]);
    assert_eq!(entries[0].2, b"hello");
    assert_eq!(entries[1].2, b"world");
}

#[test]
fn recorded_checksums_resolve_against_the_content() {
    let iso_hdlc = Some(ChecksumMatch {
        algorithm_name: "ISO_HDLC".to_string(),
        width: ChecksumWidth::Bits32,
    });
    for (_, checksum, content) in entries_of(archive_of(&[("a.txt", "hello"), ("b", "world")])) {
        assert_eq!(resolve(&content, checksum), iso_hdlc);
    }
}

#[test]
fn extraction_into_an_empty_place_writes_then_skips() {
    let entries = entries_of(archive_of(&[("a.txt", "hello"), ("sub/b.txt", "world")]));
    let mut files: Vec<(String, Vec<u8>)> = Vec::new();
    let first = extract(&entries, &mut files, false);
    assert_eq!(first, vec![ConflictOutcome::Written(5), ConflictOutcome::Written(5)]);
    assert_eq!(
        files,
        vec![
            ("/tmp/work/archive/a.txt".to_string(), b"hello".to_vec()),
            ("/tmp/work/archive/sub/b.txt".to_string(), b"world".to_vec()),
        ]
    );
    let skipped = ConflictOutcome::SkippedIdentical("ISO_HDLC".to_string());
    for _run in 0..2 {
        let before = files.clone();
        let again = extract(&entries, &mut files, false);
        assert_eq!(again, vec![skipped.clone(), skipped.clone()]);
        assert_eq!(files, before);
    }
}

#[test]
fn changed_file_is_kept_unless_overwriting_is_forced() {
    let entries = entries_of(archive_of(&[("a.txt", "hello")]));
    let mut files = vec![("/tmp/work/archive/a.txt".to_string(), b"HELLO".to_vec())];
    let kept = extract(&entries, &mut files, false);
    assert_eq!(kept, vec![ConflictOutcome::SkippedUnverifiable]);
    assert_eq!(files[0].1, b"HELLO");
    let forced = extract(&entries, &mut files, true);
    assert_eq!(forced, vec![ConflictOutcome::Written(5)]);
    assert_eq!(files[0].1, b"hello");
}
