use rc_zip::archive::Archive;
use rc_zip::encoding::{decode_cp437, decode_text, Encoding};
use rc_zip::entry::{Entry, EntryContents, Method};
use rc_zip::entry_reader::EntryReader;
use rc_zip::error::{CorruptionError, DecodingError, Error, FormatError};
use rc_zip::entry::{DosDateTime, Version};
use rc_zip::entry_reader::take_inflated;
use rc_zip::extract::{
    archive_summary, extraction_summary, sanitize_entry_path, symlink_target_is_safe, PathStyle, Progress,
};
use rc_zip::read_zip::{read_zip_bytes, ReadZip, ReadZipWithSize};
use rc_zip::reader::{ArchiveReader, ArchiveReaderResult};

struct Spec {
    name: Vec<u8>,
    data: Vec<u8>,
    stored: Vec<u8>,
    method: u16,
    creator: u16,
    attrs: u32,
    flags: u16,
    extra: Vec<u8>,
    crc: u32,
}

fn file(name: &str, data: &[u8]) -> Spec {
    Spec {
        name: name.as_bytes().to_vec(),
        data: data.to_vec(),
        stored: data.to_vec(),
        method: 0,
        creator: 0x0314,
        attrs: (0o100644u32) << 16,
        flags: 0,
        extra: Vec::new(),
        crc: crc32fast::hash(data),
    }
}

fn deflated(name: &str, data: &[u8]) -> Spec {
    let mut c = flate2::Compress::new(flate2::Compression::default(), false);
    let mut out = Vec::with_capacity(data.len() + 1024);
    c.compress_vec(data, &mut out, flate2::FlushCompress::Finish).unwrap();
    let mut s = file(name, data);
    s.stored = out;
    s.method = 8;
    s
}

fn dir(name: &str) -> Spec {
    let mut s = file(name, b"");
    s.attrs = (0o040755u32) << 16;
    s
}

fn symlink(name: &str, target: &str) -> Spec {
    let mut s = file(name, target.as_bytes());
    s.attrs = (0o120777u32) << 16;
    s
}

fn push16(v: &mut Vec<u8>, x: u16) {
    v.extend_from_slice(&x.to_le_bytes());
}

fn push32(v: &mut Vec<u8>, x: u32) {
    v.extend_from_slice(&x.to_le_bytes());
}

fn push64(v: &mut Vec<u8>, x: u64) {
    v.extend_from_slice(&x.to_le_bytes());
}

fn central_header(v: &mut Vec<u8>, s: &Spec, offset: u32) {
    push32(v, 0x02014b50);
    push16(v, s.creator);
    push16(v, 20);
    push16(v, s.flags);
    push16(v, s.method);
    push16(v, 0x6000);
    push16(v, 0x5821);
    push32(v, s.crc);
    push32(v, s.stored.len() as u32);
    push32(v, s.data.len() as u32);
    push16(v, s.name.len() as u16);
    push16(v, s.extra.len() as u16);
    push16(v, 0);
    push16(v, 0);
    push16(v, 0);
    push32(v, s.attrs);
    push32(v, offset);
    v.extend_from_slice(&s.name);
    v.extend_from_slice(&s.extra);
}

fn eocd(v: &mut Vec<u8>, records: u16, size: u32, offset: u32, comment: &[u8]) {
    push32(v, 0x06054b50);
    push16(v, 0);
    push16(v, 0);
    push16(v, records);
    push16(v, records);
    push32(v, size);
    push32(v, offset);
    push16(v, comment.len() as u16);
    v.extend_from_slice(comment);
}

fn build(entries: &[Spec], comment: &[u8]) -> Vec<u8> {
    let mut v = Vec::new();
    let mut offsets = Vec::new();
    for s in entries {
        offsets.push(v.len() as u32);
        push32(&mut v, 0x04034b50);
        push16(&mut v, 20);
        push16(&mut v, s.flags);
        push16(&mut v, s.method);
        push16(&mut v, 0x6000);
        push16(&mut v, 0x5821);
        push32(&mut v, s.crc);
        push32(&mut v, s.stored.len() as u32);
        push32(&mut v, s.data.len() as u32);
        push16(&mut v, s.name.len() as u16);
        push16(&mut v, 0);
        v.extend_from_slice(&s.name);
        v.extend_from_slice(&s.stored);
    }
    let dir_offset = v.len() as u32;
    for (s, off) in entries.iter().zip(offsets.iter()) {
        central_header(&mut v, s, *off);
    }
    let dir_size = v.len() as u32 - dir_offset;
    eocd(&mut v, entries.len() as u16, dir_size, dir_offset, comment);
    v
}

fn read_entry(data: &[u8], e: &Entry) -> Result<Vec<u8>, Error> {
    let mut r = EntryReader::new(e)?;
    let mut out = Vec::new();
    while let Some(off) = r.wants_read() {
        let off = off as usize;
        let chunk: &[u8] = if off < data.len() { &data[off..] } else { &[] };
        out.extend(r.feed(chunk)?);
    }
    Ok(out)
}

fn parse(data: &[u8]) -> Archive {
    read_zip_bytes(data).unwrap()
}

#[test]
fn entry_count_matches_directory_records() {
    let zip = build(&[file("a.txt", b"alpha"), file("b.txt", b"beta"), dir("d/")], b"");
    let a = parse(&zip);
    assert_eq!(a.entries.len(), 3);
    assert_eq!(a.entries[0].name, "a.txt");
    assert_eq!(a.entries[2].name, "d/");
    assert_eq!(a.size, zip.len() as u64);
}

#[test]
fn empty_archive_has_no_entries() {
    let zip = build(&[], b"");
    assert_eq!(zip.len(), 22);
    let a = parse(&zip);
    assert_eq!(a.entries.len(), 0);
    assert!(a.comment().is_none());
}

#[test]
fn archive_comment_is_decoded() {
    let zip = build(&[file("a", b"x")], b"made by hand");
    let a = parse(&zip);
    assert_eq!(a.comment().unwrap(), "made by hand");
    assert_eq!(a.encoding(), Encoding::Utf8);
}

#[test]
fn stored_entry_round_trips() {
    let zip = build(&[file("hello.txt", b"hello world")], b"");
    let a = parse(&zip);
    assert_eq!(a.entries[0].method, Method::Store);
    assert_eq!(read_entry(&zip, &a.entries[0]).unwrap(), b"hello world".to_vec());
}

#[test]
fn empty_stored_entry_gives_nothing() {
    let zip = build(&[file("empty", b"")], b"");
    let a = parse(&zip);
    assert_eq!(read_entry(&zip, &a.entries[0]).unwrap(), Vec::<u8>::new());
}

#[test]
fn deflated_entry_decompresses() {
    let text: Vec<u8> = b"the quick brown fox jumps over the lazy dog; ".repeat(200);
    let zip = build(&[deflated("fox.txt", &text)], b"");
    let a = parse(&zip);
    let e = &a.entries[0];
    assert_eq!(e.method, Method::Deflate);
    assert!(e.compressed_size < e.uncompressed_size);
    let out = read_entry(&zip, e).unwrap();
    assert_eq!(out.len() as u64, e.uncompressed_size);
    assert_eq!(out, text);
}

#[test]
fn entry_reader_streams_in_small_pieces() {
    let zip = build(&[file("s", b"0123456789")], b"");
    let a = parse(&zip);
    let mut r = EntryReader::new(&a.entries[0]).unwrap();
    let mut out = Vec::new();
    while let Some(off) = r.wants_read() {
        let off = off as usize;
        let end = (off + 3).min(zip.len());
        out.extend(r.feed(&zip[off..end]).unwrap());
    }
    assert_eq!(out, b"0123456789".to_vec());
    assert_eq!(r.produced, 10);
    assert_eq!(r.crc, crc32fast::hash(b"0123456789"));
}

#[test]
fn checksum_mismatch_is_reported() {
    let mut s = file("bad", b"payload");
    s.crc = 0x1234_5678;
    let zip = build(&[s], b"");
    let a = parse(&zip);
    match read_entry(&zip, &a.entries[0]) {
        Err(Error::Corrupted(CorruptionError::ChecksumMismatch { expected, actual })) => {
            assert_eq!(expected, 0x1234_5678);
            assert_eq!(actual, crc32fast::hash(b"payload"));
        }
        other => panic!("unexpected {:?}", other),
    }
}

#[test]
fn unsupported_method_fails_only_when_read() {
    let mut s = file("b.bz2", b"xyz");
    s.method = 12;
    let zip = build(&[s], b"");
    let a = parse(&zip);
    assert_eq!(a.entries[0].method, Method::Bzip2);
    assert!(matches!(read_entry(&zip, &a.entries[0]), Err(Error::UnsupportedMethod(12))));
}

#[test]
fn truncated_input_ends_entry_early() {
    let zip = build(&[file("t", b"0123456789")], b"");
    let a = parse(&zip);
    let cut = &zip[..40];
    assert!(matches!(read_entry(cut, &a.entries[0]), Err(Error::IO(_))));
}

#[test]
fn impossible_number_of_files_is_rejected() {
    let mut v = Vec::new();
    // zip64 end of central directory record at 0
    push32(&mut v, 0x06064b50);
    push64(&mut v, 44);
    push16(&mut v, 45);
    push16(&mut v, 45);
    push32(&mut v, 0);
    push32(&mut v, 0);
    push64(&mut v, 10_000_000);
    push64(&mut v, 10_000_000);
    push64(&mut v, 0);
    push64(&mut v, 0);
    // locator
    push32(&mut v, 0x07064b50);
    push32(&mut v, 0);
    push64(&mut v, 0);
    push32(&mut v, 1);
    eocd(&mut v, 0xFFFF, 0xFFFF_FFFF, 0xFFFF_FFFF, b"");
    assert_eq!(v.len(), 98);
    match read_zip_bytes(&v) {
        Err(Error::Format(FormatError::ImpossibleNumberOfFiles { claimed_records_count, zip_size })) => {
            assert_eq!(claimed_records_count, 10_000_000);
            assert_eq!(zip_size, 98);
        }
        other => panic!("unexpected {:?}", other.map(|a| a.entries.len())),
    }
}

#[test]
fn zip64_values_override_sentinels() {
    let inner = build(&[file("z", b"zip64")], b"");
    let dir_offset = 5 + 30 + 1;
    let dir_size = inner.len() - 22 - dir_offset;
    let mut v = inner[..inner.len() - 22].to_vec();
    let z_off = v.len() as u64;
    push32(&mut v, 0x06064b50);
    push64(&mut v, 44);
    push16(&mut v, 45);
    push16(&mut v, 45);
    push32(&mut v, 0);
    push32(&mut v, 0);
    push64(&mut v, 1);
    push64(&mut v, 1);
    push64(&mut v, dir_size as u64);
    push64(&mut v, dir_offset as u64);
    push32(&mut v, 0x07064b50);
    push32(&mut v, 0);
    push64(&mut v, z_off);
    push32(&mut v, 1);
    eocd(&mut v, 0xFFFF, 0xFFFF_FFFF, 0xFFFF_FFFF, b"");
    let a = parse(&v);
    assert_eq!(a.entries.len(), 1);
    assert_eq!(read_entry(&v, &a.entries[0]).unwrap(), b"zip64".to_vec());
}

#[test]
fn invalid_zip64_record_is_rejected() {
    let mut v = Vec::new();
    v.extend_from_slice(&[0u8; 56]);
    push32(&mut v, 0x07064b50);
    push32(&mut v, 0);
    push64(&mut v, 0);
    push32(&mut v, 1);
    eocd(&mut v, 0xFFFF, 0xFFFF_FFFF, 0xFFFF_FFFF, b"");
    assert!(matches!(
        read_zip_bytes(&v),
        Err(Error::Format(FormatError::Directory64EndRecordInvalid))
    ));
}

#[test]
fn zip64_extra_field_gives_sizes() {
    let mut s = file("big", b"abc");
    let mut extra = Vec::new();
    push16(&mut extra, 0x0001);
    push16(&mut extra, 16);
    push64(&mut extra, 3);
    push64(&mut extra, 3);
    s.extra = extra;
    let mut zip = Vec::new();
    push32(&mut zip, 0x04034b50);
    zip.extend_from_slice(&[20, 0, 0, 0, 0, 0, 0, 0x60, 0x21, 0x58]);
    push32(&mut zip, s.crc);
    push32(&mut zip, 3);
    push32(&mut zip, 3);
    push16(&mut zip, 3);
    push16(&mut zip, 0);
    zip.extend_from_slice(b"big");
    zip.extend_from_slice(b"abc");
    let dir_offset = zip.len() as u32;
    let mut hdr = Vec::new();
    central_header(&mut hdr, &s, 0);
    // sizes in the header itself hold the sentinel
    hdr[20..24].copy_from_slice(&0xFFFF_FFFFu32.to_le_bytes());
    hdr[24..28].copy_from_slice(&0xFFFF_FFFFu32.to_le_bytes());
    zip.extend_from_slice(&hdr);
    eocd(&mut zip, 1, hdr.len() as u32, dir_offset, b"");
    let a = parse(&zip);
    assert_eq!(a.entries[0].uncompressed_size, 3);
    assert_eq!(a.entries[0].compressed_size, 3);
    assert_eq!(read_entry(&zip, &a.entries[0]).unwrap(), b"abc".to_vec());
}

#[test]
fn malformed_extra_field_is_rejected() {
    let mut s = file("big", b"abc");
    let mut extra = Vec::new();
    push16(&mut extra, 0x0001);
    push16(&mut extra, 4);
    push32(&mut extra, 3);
    s.extra = extra;
    let mut zip = Vec::new();
    let mut hdr = Vec::new();
    central_header(&mut hdr, &s, 0);
    hdr[24..28].copy_from_slice(&0xFFFF_FFFFu32.to_le_bytes());
    zip.extend_from_slice(&hdr);
    eocd(&mut zip, 1, hdr.len() as u32, 0, b"");
    assert!(matches!(read_zip_bytes(&zip), Err(Error::Format(FormatError::InvalidExtraField))));
}

#[test]
fn unix_owner_extra_field_gives_ids() {
    let mut s = file("owned", b"x");
    let mut extra = Vec::new();
    push16(&mut extra, 0x7875);
    push16(&mut extra, 11);
    extra.push(1);
    extra.push(4);
    push32(&mut extra, 1000);
    extra.push(4);
    push32(&mut extra, 100);
    s.extra = extra;
    let zip = build(&[s], b"");
    let a = parse(&zip);
    assert_eq!(a.entries[0].uid, Some(1000));
    assert_eq!(a.entries[0].gid, Some(100));
}

#[test]
fn missing_end_record_is_reported() {
    assert!(matches!(
        read_zip_bytes(b"this is not a zip archive at all"),
        Err(Error::Format(FormatError::DirectoryEndSignatureNotFound))
    ));
    assert!(matches!(
        read_zip_bytes(&[]),
        Err(Error::Format(FormatError::DirectoryEndSignatureNotFound))
    ));
}

#[test]
fn truncated_archive_never_parses() {
    let zip = build(&[file("a.txt", b"alpha"), file("b.txt", b"beta")], b"");
    let eocd_offset = zip.len() - 22;
    for len in 0..eocd_offset + 21 {
        match read_zip_bytes(&zip[..len]) {
            Err(Error::Format(FormatError::DirectoryEndSignatureNotFound))
            | Err(Error::Format(FormatError::DirectoryOffsetPointsOutsideFile)) => {}
            Err(e) => panic!("length {}: unexpected error {:?}", len, e),
            Ok(_) => panic!("length {}: parsed", len),
        }
    }
}

#[test]
fn directory_offset_outside_file_is_rejected() {
    let mut v = Vec::new();
    eocd(&mut v, 0, 0, 1000, b"");
    assert!(matches!(
        read_zip_bytes(&v),
        Err(Error::Format(FormatError::DirectoryOffsetPointsOutsideFile))
    ));
}

#[test]
fn short_central_directory_is_rejected() {
    let zip = build(&[file("a", b"1")], &[b'c'; 60]);
    let mut v = zip.clone();
    let n = v.len();
    // claim two records where one is stored
    let e = n - 22 - 60;
    v[e + 8..e + 10].copy_from_slice(&2u16.to_le_bytes());
    v[e + 10..e + 12].copy_from_slice(&2u16.to_le_bytes());
    assert!(matches!(read_zip_bytes(&v), Err(Error::Format(FormatError::InvalidCentralRecord))));
}

#[test]
fn invalid_utf8_name_is_an_encoding_error() {
    let mut s = file("x", b"1");
    s.name = vec![0x66, 0xFF, 0x66];
    s.flags = 0x800;
    let zip = build(&[s], b"");
    assert!(matches!(read_zip_bytes(&zip), Err(Error::Encoding(DecodingError::Utf8Error))));
}

#[test]
fn legacy_names_decode_as_cp437() {
    let mut s = file("x", b"1");
    s.name = vec![0x80, b'a', 0xE1];
    let zip = build(&[s], b"");
    let a = parse(&zip);
    assert_eq!(a.encoding, Encoding::Cp437);
    assert_eq!(a.entries[0].name, "\u{C7}a\u{DF}");
}

#[test]
fn utf8_flagged_names_decode_as_utf8() {
    let mut s = file("x", b"1");
    s.name = "été".as_bytes().to_vec();
    s.flags = 0x800;
    let zip = build(&[s], b"");
    let a = parse(&zip);
    assert_eq!(a.entries[0].name, "été");
}

#[test]
fn contents_follow_mode_and_name() {
    let mut dos_dir = file("folder/", b"");
    dos_dir.creator = 0x0014;
    dos_dir.attrs = 0x10;
    let mut dos_file = file("f.txt", b"f");
    dos_file.creator = 0x0014;
    dos_file.attrs = 0x20;
    let zip = build(&[file("a", b"a"), dir("d/"), symlink("l", "a"), dos_dir, dos_file], b"");
    let a = parse(&zip);
    let kinds: Vec<EntryContents> = a.entries.iter().map(|e| e.contents()).collect();
    assert_eq!(
        kinds,
        vec![
            EntryContents::File,
            EntryContents::Directory,
            EntryContents::Symlink,
            EntryContents::Directory,
            EntryContents::File
        ]
    );
    assert_eq!(a.entries[0].mode, 0o100644);
    assert_eq!(a.entries[4].mode, 0o100644);
}

#[test]
fn read_zip_traits_agree() {
    let zip = build(&[file("a", b"a")], b"");
    assert_eq!(zip.read_zip().unwrap().entries.len(), 1);
    assert_eq!(zip.as_slice().read_zip_with_size(zip.len() as u64).unwrap().entries.len(), 1);
    assert!(matches!(zip.as_slice().read_zip_with_size(zip.len() as u64 + 1), Err(Error::IO(_))));
}

#[test]
fn reader_asks_for_the_tail_first() {
    let zip = build(&[file("a", b"a")], b"");
    let mut r = ArchiveReader::new(zip.len() as u64);
    assert_eq!(r.wants_read(), Some(0));
    assert_eq!(r.read(&zip[..10]), 10);
    assert_eq!(r.wants_read(), Some(10));
    assert!(matches!(r.process(), Ok(ArchiveReaderResult::Continue)));
    assert_eq!(r.read(&zip[10..]), zip.len() - 10);
    assert_eq!(r.wants_read(), None);
    let mut steps = 0;
    loop {
        if let Some(off) = r.wants_read() {
            r.read(&zip[off as usize..]);
        }
        match r.process().unwrap() {
            ArchiveReaderResult::Continue => steps += 1,
            ArchiveReaderResult::Done(a) => {
                assert_eq!(a.entries.len(), 1);
                break;
            }
        }
        assert!(steps < 10);
    }
}

#[test]
fn zip_slip_names_are_rejected() {
    assert_eq!(sanitize_entry_path("../../etc/passwd", PathStyle::Posix), None);
    assert_eq!(sanitize_entry_path("a/../../b", PathStyle::Posix), None);
    assert_eq!(sanitize_entry_path("a/../../b", PathStyle::Windows), None);
    assert_eq!(sanitize_entry_path("//etc/passwd", PathStyle::Posix), Some("etc/passwd".to_string()));
    assert_eq!(sanitize_entry_path("dir/file.txt", PathStyle::Posix), Some("dir/file.txt".to_string()));
    assert_eq!(sanitize_entry_path("C:\\Windows\\x", PathStyle::Windows), None);
    assert_eq!(sanitize_entry_path("\\server\\x", PathStyle::Windows), None);
    assert_eq!(sanitize_entry_path("dir\\x", PathStyle::Windows), Some("dir\\x".to_string()));
    assert_eq!(sanitize_entry_path("C:x", PathStyle::Windows), None);
    assert_eq!(sanitize_entry_path("/root/x", PathStyle::Windows), None);
    assert_eq!(sanitize_entry_path("a\\..\\b", PathStyle::Windows), None);
    assert_eq!(sanitize_entry_path("a..b/c", PathStyle::Posix), Some("a..b/c".to_string()));
    assert_eq!(sanitize_entry_path("..", PathStyle::Posix), None);
}

#[test]
fn symlink_targets_with_parent_segments_are_rejected() {
    assert!(!symlink_target_is_safe("../secret"));
    assert!(!symlink_target_is_safe("a/../../b"));
    assert!(symlink_target_is_safe("sibling/file"));
    assert!(symlink_target_is_safe("v1..v2"));
    assert!(!symlink_target_is_safe(".."));
}

#[test]
fn extraction_summary_of_four_entries() {
    let zip = build(
        &[file("one.txt", b"first file"), dir("sub/"), file("sub/two.txt", b"second"), symlink("link", "one.txt")],
        b"",
    );
    let a = parse(&zip);
    let s = extraction_summary(&a.entries, PathStyle::Posix).unwrap();
    assert_eq!((s.files, s.dirs, s.symlinks), (2, 1, 1));
    assert_eq!(s.total_bytes, 16);
    let mut done = 0u64;
    for e in &a.entries {
        if e.contents() == EntryContents::File {
            done += read_entry(&zip, e).unwrap().len() as u64;
        }
    }
    assert_eq!(done, s.total_bytes);
}

#[test]
fn extraction_summary_skips_unsafe_names_in_counts() {
    let zip = build(&[file("../evil", b"12345"), file("ok", b"1")], b"");
    let a = parse(&zip);
    let s = extraction_summary(&a.entries, PathStyle::Posix).unwrap();
    assert_eq!(s.files, 1);
    assert_eq!(s.total_bytes, 6);
}

#[test]
fn error_conversions() {
    let e: Error = FormatError::InvalidCentralRecord.into();
    assert!(matches!(e, Error::Format(FormatError::InvalidCentralRecord)));
    let e: Error = DecodingError::Utf8Error.into();
    assert!(matches!(e, Error::Encoding(DecodingError::Utf8Error)));
    let e: Error = std::io::Error::from(std::io::ErrorKind::Other).into();
    assert!(matches!(e, Error::IO(_)));
    assert_eq!(Error::UnknownSize.describe(), "rc-zip: file size must be known to open zip archive");
}

#[test]
fn error_descriptions_name_the_variant() {
    assert_eq!(
        Error::Format(FormatError::DirectoryEndSignatureNotFound).describe(),
        "rc-zip: DirectoryEndSignatureNotFound"
    );
    assert_eq!(
        Error::Format(FormatError::ImpossibleNumberOfFiles { claimed_records_count: 1000, zip_size: 22 }).describe(),
        "rc-zip: ImpossibleNumberOfFiles {\n    claimed_records_count: 1000,\n    zip_size: 22,\n}"
    );
    let f = FormatError::ImpossibleNumberOfFiles { claimed_records_count: 1000, zip_size: 22 };
    assert_eq!(Error::Format(f).describe(), format!("rc-zip: {:#?}", f));
    assert_eq!(Error::Encoding(DecodingError::Utf8Error).describe(), "rc-zip: Utf8Error");
    let io = std::io::Error::from(std::io::ErrorKind::UnexpectedEof);
    let text = format!("rc-zip: {}", io);
    assert_eq!(Error::IO(io).describe(), text);
    assert_eq!(Error::UnsupportedMethod(12).describe(), "rc-zip: UnsupportedMethod(12)");
    assert_eq!(
        Error::Corrupted(CorruptionError::SizeMismatch).describe(),
        "rc-zip: Corrupted(SizeMismatch)"
    );
}

#[test]
fn progress_counts_up_and_saturates() {
    let mut p = Progress::new(16);
    p.advance(10);
    p.advance(6);
    assert_eq!(p.done, 16);
    assert_eq!(p.total, 16);
    p.advance(u64::MAX);
    assert_eq!(p.done, u64::MAX);
}

#[test]
fn method_codes_and_versions() {
    assert_eq!(Method::from_u16(0), Method::Store);
    assert_eq!(Method::from_u16(8), Method::Deflate);
    assert_eq!(Method::from_u16(77), Method::Unrecognized(77));
    assert_eq!(Method::Lzma.code(), 14);
    assert_eq!(Method::Unrecognized(77).code(), 77);
    let v = Version { raw: 0x031E };
    assert_eq!(v.host(), 3);
    assert_eq!(v.version(), 30);
}

#[test]
fn cp437_and_utf8_decoding() {
    assert_eq!(decode_cp437(&[b'A', 0x9C, 0xFB]), "A\u{A3}\u{221A}");
    assert_eq!(decode_text(&[0xC3, 0xA9], Encoding::Utf8), Some("\u{E9}".to_string()));
    assert_eq!(decode_text(&[0xC3], Encoding::Utf8), None);
    assert_eq!(decode_text(&[0xC3], Encoding::Cp437), Some("\u{251C}".to_string()));
}

#[test]
fn extended_timestamps_are_read() {
    let mut s = file("timed", b"t");
    let mut extra = Vec::new();
    push16(&mut extra, 0x5455);
    push16(&mut extra, 9);
    extra.push(0b111);
    push32(&mut extra, 1_600_000_000);
    push32(&mut extra, (-5i32) as u32);
    s.extra = extra;
    let zip = build(&[s], b"");
    let a = parse(&zip);
    let e = &a.entries[0];
    assert_eq!(e.modified_unix, Some(1_600_000_000));
    assert_eq!(e.accessed, Some(-5));
    assert_eq!(e.created, None);
}

#[test]
fn bare_end_record_is_an_empty_archive() {
    let v: Vec<u8> = [&[0x50u8, 0x4B, 0x05, 0x06][..], &[0u8; 18][..]].concat();
    let a = v.read_zip().unwrap();
    assert_eq!(a.entries().len(), 0);
}

#[test]
fn end_record_claiming_too_many_records() {
    let v: Vec<u8> = vec![0x50, 0x4B, 0x05, 0x06, 0, 0, 0, 0, 0xE8, 0x03, 0xE8, 0x03, 0, 0, 0, 0, 0, 0, 0, 0, 0, 0];
    assert!(matches!(
        v.read_zip(),
        Err(Error::Format(FormatError::ImpossibleNumberOfFiles { claimed_records_count: 1000, zip_size: 22 }))
    ));
}

#[test]
fn unknown_method_parses() {
    let mut s = file("odd", b"xyz");
    s.method = 99;
    let zip = build(&[s], b"");
    let a = zip.read_zip().unwrap();
    assert_eq!(a.entries[0].method, Method::Unrecognized(99));
    let b = zip.as_slice().read_zip_with_size(zip.len() as u64).unwrap();
    assert_eq!(b.entries.len(), a.entries.len());
    assert_eq!(b.entries[0].name, a.entries[0].name);
}

#[test]
fn decoded_output_is_bounded_by_declared_size() {
    let mut out = vec![1u8, 2];
    assert_eq!(take_inflated(&mut out, vec![3, 4], 4), Ok(()));
    assert_eq!(out, vec![1, 2, 3, 4]);
    assert_eq!(take_inflated(&mut out, vec![5], 4), Err(CorruptionError::SizeMismatch));
    assert_eq!(out, vec![1, 2, 3, 4]);
}

#[test]
fn dos_date_and_time_components() {
    let d = DosDateTime { date: 0x5821, time: 0x6000 };
    assert_eq!(d.components(), (2024, 1, 1, 12, 0, 0));
}

#[test]
fn archive_summary_counts_kinds_and_sizes() {
    let zip = build(
        &[file("one.txt", b"first file"), dir("sub/"), deflated("sub/two.txt", &b"ab".repeat(50)), symlink("link", "one.txt")],
        b"",
    );
    let a = parse(&zip);
    let s = archive_summary(&a.entries).unwrap();
    assert_eq!((s.files, s.dirs, s.symlinks), (2, 1, 1));
    assert_eq!(s.uncompressed_bytes, 110);
    assert_eq!(s.compressed_bytes, 10 + a.entries[2].compressed_size);
}
