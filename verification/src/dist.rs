//! The rules by which a release is packaged: what goes into the archive,
//! which build is taken, and how the list of checksums reads.

use crate::text::same_text;
use sha2::{Digest, Sha256};
use vstd::prelude::*;

verus! {

/// The name of the file that lists the checksums.
pub const CHECKSUM_FILE: &'static str = "SHA256SUMS";

/// The names of the executable in the archive: the full one and the short
/// one.
pub const EXECUTABLE_NAME: &'static str = "windows-mtr.exe";

pub const EXECUTABLE_SHORT_NAME: &'static str = "mtr.exe";

/// The documents that go into the archive, in their order.
pub const README_NAME: &'static str = "README.md";

pub const LICENSE_NAME: &'static str = "LICENSE";

pub const USAGE_NAME: &'static str = "USAGE.md";

/// The number of bytes of a SHA-256 digest.
pub const DIGEST_BYTES: usize = 32;

/// The SHA-256 digest of a sequence of bytes.
pub uninterp spec fn sha256(data: Seq<u8>) -> Seq<u8>;

/// The lower-case hexadecimal digit of a number below 16.
pub open spec fn hex_digit(nibble: u8) -> char
    recommends
        nibble < 16,
{
    if nibble == 0 {
        '0'
    } else if nibble == 1 {
        '1'
    } else if nibble == 2 {
        '2'
    } else if nibble == 3 {
        '3'
    } else if nibble == 4 {
        '4'
    } else if nibble == 5 {
        '5'
    } else if nibble == 6 {
        '6'
    } else if nibble == 7 {
        '7'
    } else if nibble == 8 {
        '8'
    } else if nibble == 9 {
        '9'
    } else if nibble == 10 {
        'a'
    } else if nibble == 11 {
        'b'
    } else if nibble == 12 {
        'c'
    } else if nibble == 13 {
        'd'
    } else if nibble == 14 {
        'e'
    } else {
        'f'
    }
}

/// Bytes in hexadecimal notation: two lower-case digits for each byte, the
/// high half first.
pub open spec fn hex_text(bytes: Seq<u8>) -> Seq<char> {
    Seq::new(
        2 * bytes.len(),
        |i: int|
            if i % 2 == 0 {
                hex_digit(bytes[i / 2] / 16)
            } else {
                hex_digit(bytes[i / 2] % 16)
            },
    )
}

/// One line of the list of checksums: the digest, two spaces, the path of
/// the file below the directory of the release, and a line feed.
pub open spec fn line_text(digest: Seq<char>, path: Seq<char>) -> Seq<char> {
    digest + "  "@ + path + "\n"@
}

/// `sha2::Sha256::digest`: the SHA-256 digest of the data, as the hasher
/// gives it after it has taken in all of the data at once. The hasher's
/// output has 32 bytes.
#[verifier::external_body]
fn sha256_digest(data: &[u8]) -> (digest: Vec<u8>)
    ensures
        digest@ == sha256(data@),
        digest@.len() == DIGEST_BYTES,
{
    Sha256::digest(data).to_vec()
}

/// `hex::encode`: each byte becomes two characters of `0123456789abcdef`,
/// first the one for the byte's upper four bits, then the one for its lower
/// four bits.
#[verifier::external_body]
fn hex_encode(bytes: &[u8]) -> (text: String)
    ensures
        text@ == hex_text(bytes@),
{
    hex::encode(bytes)
}

/// Whether an entry of the release directory gets a line in the list of
/// checksums: directories do not, and neither does the list itself.
pub fn is_listed(is_directory: bool, file_name: &str) -> (listed: bool)
    ensures
        listed == (!is_directory && file_name@ != CHECKSUM_FILE@),
{
    !is_directory && !same_text(file_name, CHECKSUM_FILE)
}

/// Writes one line of the list of checksums from a digest in hexadecimal
/// notation and the path of the file.
pub fn format_checksum_line(digest: &str, path: &str) -> (line: String)
    ensures
        line@ == line_text(digest@, path@),
{
    let mut line = String::from_str(digest);
    line.append("  ");
    line.append(path);
    line.append("\n");
    line
}

/// The line of the list of checksums for a file with these contents. It
/// begins with the 64 digits of the digest.
pub fn checksum_line(contents: &[u8], path: &str) -> (line: String)
    ensures
        line@ == line_text(hex_text(sha256(contents@)), path@),
        sha256(contents@).len() == DIGEST_BYTES,
        line@.subrange(0, 2 * DIGEST_BYTES) == hex_text(sha256(contents@)),
{
    let digest = sha256_digest(contents);
    let text = hex_encode(digest.as_slice());
    let line = format_checksum_line(text.as_str(), path);
    assert(line@.subrange(0, 2 * DIGEST_BYTES) =~= text@);
    line
}

/// One file of the archive.
#[derive(Debug, PartialEq, Eq)]
pub struct ArchiveEntry {
    pub name: String,
    pub contents: Vec<u8>,
}

impl View for ArchiveEntry {
    type V = (Seq<char>, Seq<u8>);

    open spec fn view(&self) -> (Seq<char>, Seq<u8>) {
        (self.name@, self.contents@)
    }
}

/// The entries of an archive as pairs of a name and the bytes under it.
pub open spec fn entry_views(entries: Seq<ArchiveEntry>) -> Seq<(Seq<char>, Seq<u8>)> {
    entries.map_values(|entry: ArchiveEntry| entry@)
}

/// A document in the archive, where it could be read.
pub open spec fn document(name: Seq<char>, contents: Option<Vec<u8>>) -> Seq<
    (Seq<char>, Seq<u8>),
> {
    match contents {
        Some(bytes) => seq![(name, bytes@)],
        None => Seq::empty(),
    }
}

/// What the archive of a release holds: the executable under its two names,
/// then the documents that could be read, in a fixed order.
pub open spec fn layout(
    binary: Seq<u8>,
    readme: Option<Vec<u8>>,
    license: Option<Vec<u8>>,
    usage: Option<Vec<u8>>,
) -> Seq<(Seq<char>, Seq<u8>)> {
    seq![(EXECUTABLE_NAME@, binary), (EXECUTABLE_SHORT_NAME@, binary)] + document(
        README_NAME@,
        readme,
    ) + document(LICENSE_NAME@, license) + document(USAGE_NAME@, usage)
}

fn push_entry(entries: &mut Vec<ArchiveEntry>, name: &str, contents: Vec<u8>)
    ensures
        entry_views(final(entries)@) == entry_views(old(entries)@).push((name@, contents@)),
{
    entries.push(ArchiveEntry { name: String::from_str(name), contents });
    assert(entry_views(entries@) =~= entry_views(old(entries)@).push((name@, contents@)));
}

fn push_document(entries: &mut Vec<ArchiveEntry>, name: &str, contents: Option<Vec<u8>>)
    ensures
        entry_views(final(entries)@) == entry_views(old(entries)@) + document(name@, contents),
{
    match contents {
        Some(bytes) => {
            push_entry(entries, name, bytes);
        },
        None => {},
    }
    assert(entry_views(entries@) =~= entry_views(old(entries)@) + document(name@, contents));
}

/// Lays out the archive of a release.
pub fn archive_layout(
    binary: Vec<u8>,
    readme: Option<Vec<u8>>,
    license: Option<Vec<u8>>,
    usage: Option<Vec<u8>>,
) -> (entries: Vec<ArchiveEntry>)
    ensures
        entry_views(entries@) == layout(binary@, readme, license, usage),
{
    let mut entries: Vec<ArchiveEntry> = Vec::new();
    assert(entry_views(entries@) =~= Seq::empty());
    let copy = binary.clone();
    assert(copy@ =~= binary@);
    push_entry(&mut entries, EXECUTABLE_NAME, copy);
    push_entry(&mut entries, EXECUTABLE_SHORT_NAME, binary);
    push_document(&mut entries, README_NAME, readme);
    push_document(&mut entries, LICENSE_NAME, license);
    push_document(&mut entries, USAGE_NAME, usage);
    entries
}

/// The first of several places at which a build was found, if there is one.
pub fn first_present(present: &Vec<bool>) -> (first: Option<usize>)
    ensures
        match first {
            Some(index) => index < present.len() && present[index as int] && forall|j: int|
                0 <= j < index ==> !present[j],
            None => forall|j: int| 0 <= j < present.len() ==> !present[j],
        },
{
    let mut index: usize = 0;
    while index < present.len()
        invariant
            index <= present.len(),
            forall|j: int| 0 <= j < index ==> !present[j],
        decreases present.len() - index,
    {
        if present[index] {
            return Some(index);
        }
        index += 1;
    }
    None
}

} // verus!
