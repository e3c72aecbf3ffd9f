use windows_mtr::dist::{
    archive_layout, checksum_line, first_present, format_checksum_line, is_listed, ArchiveEntry,
    CHECKSUM_FILE,
};

#[test]
fn checksum_of_no_bytes() {
    assert_eq!(
        checksum_line(b"", "empty.bin"),
        "e3b0c44298fc1c149afbf4c8996fb92427ae41e4649b934ca495991b7852b855  empty.bin\n"
    );
}

#[test]
fn checksum_of_three_letters() {
    assert_eq!(
        checksum_line(b"abc", "windows-mtr.zip"),
        "ba7816bf8f01cfea414140de5dae2223b00361a396177a9cb410ff61f20015ad  windows-mtr.zip\n"
    );
}

#[test]
fn checksum_of_a_longer_text() {
    assert_eq!(
        checksum_line(
            b"abcdbcdecdefdefgefghfghighijhijkijkljklmklmnlmnomnopnopq",
            "docs/USAGE.md"
        ),
        "248d6a61d20638b8e5c026930c3e6039a33ce45964ff2167f6ecedd419db06c1  docs/USAGE.md\n"
    );
}

#[test]
fn checksum_line_has_two_spaces_and_a_line_feed() {
    assert_eq!(format_checksum_line("00ff", "a b.txt"), "00ff  a b.txt\n");
    assert_eq!(format_checksum_line("", ""), "  \n");
}

#[test]
fn directories_and_the_list_itself_are_left_out() {
    assert_eq!(CHECKSUM_FILE, "SHA256SUMS");
    assert!(is_listed(false, "windows-mtr.zip"));
    assert!(is_listed(false, "windows-mtr.zip.xz"));
    assert!(is_listed(false, "sha256sums"));
    assert!(!is_listed(false, "SHA256SUMS"));
    assert!(!is_listed(true, "dist"));
    assert!(!is_listed(true, "SHA256SUMS"));
}

#[test]
fn archive_holds_the_executable_twice_and_then_the_documents() {
    let entries = archive_layout(
        vec![0x4d, 0x5a],
        Some(b"readme".to_vec()),
        Some(b"license".to_vec()),
        Some(b"usage".to_vec()),
    );
    assert_eq!(
        entries,
        vec![
            ArchiveEntry { name: "windows-mtr.exe".to_string(), contents: vec![0x4d, 0x5a] },
            ArchiveEntry { name: "mtr.exe".to_string(), contents: vec![0x4d, 0x5a] },
            ArchiveEntry { name: "README.md".to_string(), contents: b"readme".to_vec() },
            ArchiveEntry { name: "LICENSE".to_string(), contents: b"license".to_vec() },
            ArchiveEntry { name: "USAGE.md".to_string(), contents: b"usage".to_vec() },
        ]
    );
}

#[test]
fn unreadable_documents_are_left_out() {
    let entries = archive_layout(vec![1, 2, 3], None, Some(vec![]), None);
    assert_eq!(
        entries,
        vec![
            ArchiveEntry { name: "windows-mtr.exe".to_string(), contents: vec![1, 2, 3] },
            ArchiveEntry { name: "mtr.exe".to_string(), contents: vec![1, 2, 3] },
            ArchiveEntry { name: "LICENSE".to_string(), contents: vec![] },
        ]
    );
    assert_eq!(archive_layout(vec![], None, None, None).len(), 2);
}

#[test]
fn first_place_with_a_build_is_taken() {
    assert_eq!(first_present(&vec![]), None);
    assert_eq!(first_present(&vec![false, false]), None);
    assert_eq!(first_present(&vec![true, true]), Some(0));
    assert_eq!(first_present(&vec![false, true]), Some(1));
    assert_eq!(first_present(&vec![false, false, true, true]), Some(2));
}

#[test]
fn checksum_line_begins_with_sixty_four_digits() {
    for contents in [&b""[..], &b"abc"[..], &[0u8, 255, 16, 1][..]] {
        let line = checksum_line(contents, "f");
        assert_eq!(line.len(), 64 + 2 + 1 + 1);
        assert!(line[..64].chars().all(|c| "0123456789abcdef".contains(c)));
        assert_eq!(&line[64..], "  f\n");
    }
}
