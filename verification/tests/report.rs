use sunzip::report::{checksum_hex, decimal, report_lines, written_line};

#[test]
fn checksum_hex_shows_the_bytes_in_memory_order() {
    let text = checksum_hex(0x0102030405060708);
    assert!(text == "0807060504030201" || text == "0102030405060708");
    let expected: String =
        0x0102030405060708u64.to_ne_bytes().iter().map(|byte| format!("{:02x}", byte)).collect();
    assert_eq!(text, expected);
}

#[test]
fn checksum_hex_uses_lowercase_digits_and_keeps_zeros() {
    assert_eq!(checksum_hex(0), "0000000000000000");
    assert_eq!(checksum_hex(u64::MAX), "ffffffffffffffff");
    assert_eq!(checksum_hex(0xabababababababab), "abababababababab");
    assert_eq!(checksum_hex(0x0f0f0f0f0f0f0f0f), "0f0f0f0f0f0f0f0f");
}

#[test]
fn report_has_a_header_a_line_for_each_digest_and_a_verdict() {
    let wide = vec![(5u64, "A".to_string()), (7u64, "B".to_string())];
    let narrow = vec![(7u32, "C".to_string())];
    let lines = report_lines("out/a.txt", 7, 9, &wide, &narrow, false);
    let expected = vec![
        format!(
            "out/a.txt already exists with CRC {} ({} compressed)",
            checksum_hex(7),
            checksum_hex(9)
        ),
        format!("calculating CRC 64 A: {}", checksum_hex(5)),
        format!("calculating CRC 64 B: {}", checksum_hex(7)),
        format!("calculating CRC 32 C: {}", checksum_hex(7)),
        "B matches successfully".to_string(),
    ];
    assert_eq!(lines, expected);
}

#[test]
fn report_ends_with_a_warning_where_nothing_matches() {
    let wide = vec![(5u64, "A".to_string())];
    let narrow = vec![(0xdead_beefu32, "C".to_string())];
    let lines = report_lines("x", 0x1_dead_beef, 0, &wide, &narrow, false);
    assert_eq!(lines.len(), 4);
    assert_eq!(lines[2], format!("calculating CRC 32 C: {}", checksum_hex(0xdead_beef)));
    assert_eq!(lines[3], "WARNING: no valid CRC32 match found!");
}

#[test]
fn report_names_a_narrow_match() {
    let wide = vec![(5u64, "A".to_string())];
    let narrow = vec![(1u32, "C".to_string()), (2u32, "D".to_string())];
    let lines = report_lines("x", 2, 0, &wide, &narrow, false);
    assert_eq!(lines.last().unwrap(), "D matches successfully");
}

#[test]
fn quiet_mode_has_no_report() {
    let wide = vec![(5u64, "A".to_string())];
    let narrow = vec![(1u32, "C".to_string())];
    assert!(report_lines("x", 5, 0, &wide, &narrow, true).is_empty());
    assert!(report_lines("x", 9, 0, &wide, &narrow, true).is_empty());
}

#[test]
fn decimal_has_no_leading_zeros() {
    assert_eq!(decimal(0), "0");
    assert_eq!(decimal(7), "7");
    assert_eq!(decimal(10), "10");
    assert_eq!(decimal(405), "405");
    assert_eq!(decimal(1000), "1000");
    assert_eq!(decimal(9_876_543_210), "9876543210");
    assert_eq!(decimal(usize::MAX), usize::MAX.to_string());
}

#[test]
fn written_line_names_count_place_and_checksum() {
    assert_eq!(
        written_line(5, "archive/a.txt", 0x3610a686),
        format!("wrote 5 bytes to archive/a.txt (crc: {})", checksum_hex(0x3610a686))
    );
    assert_eq!(
        written_line(0, "", 0),
        "wrote 0 bytes to  (crc: 0000000000000000)"
    );
}
