use anomaly_launcher::checksum::{
    check_all,
    checksums_missing_report, file_status, parse_checksum_listing, to_hex_lower, verification_message,
    ChecksumEntry, FileStatus, Md5Stream, VerificationTally, IGNORED_FILES,
};

fn hex(d: &[u8]) -> String {
    to_hex_lower(d).into_iter().collect()
}

#[test]
fn md5_of_known_inputs() {
    let s = Md5Stream::new();
    assert_eq!(hex(&s.finish()), "d41d8cd98f00b204e9800998ecf8427e");
    let mut s = Md5Stream::new();
    s.update(b"ab");
    s.update(b"");
    s.update(b"c");
    assert_eq!(hex(&s.finish()), "900150983cd24fb0d6963f7d28e17f72");
    let mut s = Md5Stream::new();
    s.update(b"abcdefghijklmnopqrstuvwxyz");
    assert_eq!(hex(&s.finish()), "c3fcd3d76192e4007dfb496cca67e13b");
}

#[test]
fn hex_is_lower_case_high_nibble_first() {
    assert_eq!(hex(&[0x00, 0x0f, 0xf0, 0xab, 0xff]), "000ff0abff");
    assert_eq!(hex(&[]), "");
}

#[test]
fn listing_lines_are_filtered_and_lowered() {
    let text = "d41d8cd98f00b204e9800998ecf8427e *a.txt\n\
                # comment *b\n\
                ABCDEF *bin\\AnomalyDX11.exe\n\
                0CC175B9C0F1B6A831C399E269772661  *sub\\c.db extra\r\n\
                only\n\
                ;x *y\n\
                0cc1 noasterisk\n\
                \n\
                ffff *fsgame.ltx\n\
                EEEE\t*gamedata\\x.ltx";
    let l = parse_checksum_listing(text);
    assert_eq!(l.line_count, 10);
    let got: Vec<(usize, String, String)> =
        l.entries.iter().map(|e| (e.line_index, e.checksum.clone(), e.file_name.clone())).collect();
    assert_eq!(
        got,
        vec![
            (0, "d41d8cd98f00b204e9800998ecf8427e".to_string(), "a.txt".to_string()),
            (3, "0cc175b9c0f1b6a831c399e269772661".to_string(), "sub\\c.db".to_string()),
            (9, "eeee".to_string(), "gamedata\\x.ltx".to_string()),
        ]
    );
}

#[test]
fn listing_of_nothing() {
    let l = parse_checksum_listing("");
    assert_eq!(l.line_count, 0);
    assert!(l.entries.is_empty());
}

#[test]
fn every_ignored_file_is_skipped() {
    for name in IGNORED_FILES {
        let l = parse_checksum_listing(&format!("00 *{}\n", name));
        assert_eq!(l.line_count, 1);
        assert!(l.entries.is_empty(), "{}", name);
    }
}

fn entry(checksum: &str, name: &str) -> ChecksumEntry {
    ChecksumEntry { line_index: 0, checksum: checksum.to_string(), file_name: name.to_string() }
}

#[test]
fn file_status_compares_hex_digest() {
    let mut s = Md5Stream::new();
    s.update(b"a");
    let d = s.finish();
    assert_eq!(file_status(&entry("0cc175b9c0f1b6a831c399e269772661", "a"), Some(d)), FileStatus::Intact);
    assert_eq!(file_status(&entry("0cc175b9c0f1b6a831c399e269772662", "a"), Some(d)), FileStatus::Corrupt);
    assert_eq!(file_status(&entry("0CC175B9C0F1B6A831C399E269772661", "a"), Some(d)), FileStatus::Corrupt);
    assert_eq!(file_status(&entry("0cc175b9c0f1b6a831c399e269772661", "a"), None), FileStatus::Missing);
}

#[test]
fn upper_case_listing_matches_after_parsing() {
    let l = parse_checksum_listing("0CC175B9C0F1B6A831C399E269772661 *a\n");
    let mut s = Md5Stream::new();
    s.update(b"a");
    assert_eq!(file_status(&l.entries[0], Some(s.finish())), FileStatus::Intact);
}

#[test]
fn tally_and_report() {
    let mut t = VerificationTally::new();
    assert_eq!(t.report(), "");
    t.record(&entry("00", "bin\\x.dll"), FileStatus::Missing);
    t.record(&entry("00", "ok.db"), FileStatus::Intact);
    t.record(&entry("00", "bad \"q\".db"), FileStatus::Corrupt);
    t.record(&entry("00", "y.db"), FileStatus::Missing);
    assert_eq!(t.missing, vec!["bin\\x.dll", "y.db"]);
    assert_eq!(t.corrupt, vec!["bad \"q\".db"]);
    let expected = format!(
        "* files missing, please reinstall *\nMissing files: {:?}\n* checksum verification failed, please reinstall *\nCorrupt files: {:?}\n",
        t.missing, t.corrupt
    );
    assert_eq!(t.report(), expected);
    assert_eq!(
        t.report(),
        "* files missing, please reinstall *\nMissing files: [\"bin\\\\x.dll\", \"y.db\"]\n* checksum verification failed, please reinstall *\nCorrupt files: [\"bad \\\"q\\\".db\"]\n"
    );
}

#[test]
fn report_with_only_corrupt_files() {
    let mut t = VerificationTally::new();
    t.record(&entry("00", "a"), FileStatus::Corrupt);
    assert_eq!(t.report(), "* checksum verification failed, please reinstall *\nCorrupt files: [\"a\"]\n");
}

#[test]
fn missing_listing_report() {
    assert_eq!(checksums_missing_report(), "* checksums.md5 missing *");
}

#[test]
fn result_messages() {
    let none: Vec<String> = Vec::new();
    assert_eq!(verification_message("", &none, &none), "\nNo issues found.\n");
    let missing = vec!["a".to_string(), "b".to_string()];
    assert_eq!(
        verification_message("S", &missing, &none),
        "S\nMissing files:\n- a\n- b\n\nNo issues found.\n"
    );
    let corrupt = vec!["c".to_string()];
    assert_eq!(verification_message("S", &none, &corrupt), "S\nCorrupt files:\n- c\n");
    assert_eq!(
        verification_message("", &missing, &corrupt),
        "\nMissing files:\n- a\n- b\n\nCorrupt files:\n- c\n"
    );
}

#[test]
fn whole_check_in_listing_order() {
    let digest = |data: &[u8]| {
        let mut s = Md5Stream::new();
        s.update(data);
        s.finish()
    };
    let listing = parse_checksum_listing(
        "0cc175b9c0f1b6a831c399e269772661 *a\n\
         900150983cd24fb0d6963f7d28e17f72 *gone1\n\
         ffffffffffffffffffffffffffffffff *b\n\
         d41d8cd98f00b204e9800998ecf8427e *gone2\n\
         900150983CD24FB0D6963F7D28E17F72 *c\n",
    );
    let digests = vec![Some(digest(b"a")), None, Some(digest(b"b")), None, Some(digest(b"abc"))];
    let t = check_all(&listing.entries, &digests);
    assert_eq!(t.missing, vec!["gone1", "gone2"]);
    assert_eq!(t.corrupt, vec!["b"]);
    let empty = check_all(&Vec::new(), &Vec::new());
    assert!(empty.missing.is_empty() && empty.corrupt.is_empty());
}
