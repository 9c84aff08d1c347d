//! Reading an archive held in memory, by driving an [`ArchiveReader`] to
//! completion.
use vstd::prelude::*;
use crate::archive::Archive;
use crate::error::{Error, FormatError};
use crate::reader::ArchiveReader;
use crate::archive::{header_extra, resolve_directory, resolved_from, DirectoryEnd};
use crate::le::{le16, le32, le64};
use crate::records::{
    eocd_at, find_eocd, parse_eocd, parse_eocd64, parse_eocd64_locator, CentralDirectoryHeader,
    EndOfCentralDirectory64Record, EndOfCentralDirectoryRecord, central_header_parsed, EOCD64_LOCATOR_SIGNATURE, EOCD64_LOCATOR_SIZE,
    EOCD64_SIGNATURE, EOCD64_SIZE, EOCD_SIZE, MAX_COMMENT_SIZE,
};
use crate::reader::{directory_ok, entries_of_directory, header_pos, headers_fit, read_directory};

verus! {

/// Reads something as a zip archive of a given size.
pub trait ReadZipWithSize {
    /// The bytes that `self` holds.
    spec fn zip_bytes(&self) -> Seq<u8>;

    /// Reads the first `size` bytes of self as a zip archive; fails with an
    /// I/O error when self holds fewer.
    fn read_zip_with_size(&self, size: u64) -> (r: Result<Archive, Error>)
        ensures
            size <= self.zip_bytes().len() ==> read_zip_result(self.zip_bytes().subrange(0, size as int), r),
            size > self.zip_bytes().len() ==> r is Err && r->Err_0 is IO,
    ;
}

/// Reads something as a zip archive, when its size is known from itself.
pub trait ReadZip {
    /// The bytes that `self` holds.
    spec fn zip_bytes(&self) -> Seq<u8>;

    /// Reads self as a zip archive.
    fn read_zip(&self) -> (r: Result<Archive, Error>)
        ensures
            read_zip_result(self.zip_bytes(), r),
    ;
}

/// The tail of `data` in which the end of central directory record is
/// searched for.
pub open spec fn haystack(data: Seq<u8>) -> Seq<u8> {
    data.subrange(ArchiveReader::haystack_start(data.len() as u64) as int, data.len() as int)
}

/// Index in `hs` of its last complete end of central directory record.
pub open spec fn last_eocd(hs: Seq<u8>) -> int {
    choose|i: int| eocd_at(hs, i) && forall|j: int| i < j ==> !#[trigger] eocd_at(hs, j)
}

/// The zip64 end of central directory record whose fields start at `p`
/// in `s`.
pub open spec fn eocd64_from(s: Seq<u8>, p: int) -> EndOfCentralDirectory64Record {
    EndOfCentralDirectory64Record {
        record_size: le64(s, p + 4) as u64,
        creator_version: le16(s, p + 12) as u16,
        reader_version: le16(s, p + 14) as u16,
        disk_nbr: le32(s, p + 16) as u32,
        dir_disk_nbr: le32(s, p + 20) as u32,
        dir_records_this_disk: le64(s, p + 24) as u64,
        directory_records: le64(s, p + 32) as u64,
        directory_size: le64(s, p + 40) as u64,
        directory_offset: le64(s, p + 48) as u64,
    }
}

/// The zip64 record that goes with the end of central directory record at
/// `e` in `data`: none without a locator right before it; the record the
/// locator names; or an error when that record is not there.
pub open spec fn zip64_of(data: Seq<u8>, e: int) -> Result<Option<EndOfCentralDirectory64Record>, FormatError> {
    if e >= EOCD64_LOCATOR_SIZE && le32(data, e - 20) == EOCD64_LOCATOR_SIGNATURE {
        let off = le64(data, e - 12);
        if off >= data.len() || data.len() - off < EOCD64_SIZE || le32(data, off) != EOCD64_SIGNATURE {
            Err(FormatError::Directory64EndRecordInvalid)
        } else {
            Ok(Some(eocd64_from(data, off)))
        }
    } else {
        Ok(None)
    }
}

/// The record count, directory size and directory offset fields of the
/// last end of central directory record in the tail of `data`, with its
/// zip64 record; or the error that the records give.
#[verifier::opaque]
pub open spec fn end_fields(data: Seq<u8>) -> Result<(u16, u32, u32, Option<EndOfCentralDirectory64Record>), FormatError> {
    let hs = haystack(data);
    if forall|j: int| !#[trigger] eocd_at(hs, j) {
        Err(FormatError::DirectoryEndSignatureNotFound)
    } else {
        let i = last_eocd(hs);
        let e = ArchiveReader::haystack_start(data.len() as u64) + i;
        match zip64_of(data, e) {
            Err(f) => Err(f),
            Ok(z) => Ok((le16(hs, i + 10) as u16, le32(hs, i + 12) as u32, le32(hs, i + 16) as u32, z)),
        }
    }
}

/// Where the central directory of the archive `data` lies and how many
/// records it holds, or the error that its end records give.
pub open spec fn zip_end(data: Seq<u8>) -> Result<DirectoryEnd, FormatError> {
    match end_fields(data) {
        Err(f) => Err(f),
        Ok((records, dsize, offset, z)) => resolved_from(records, dsize, offset, z, data.len() as u64),
    }
}

/// The bytes of the central directory `dir` in `data`: from its offset,
/// its size or as much of it as the file holds.
pub open spec fn directory_bytes(data: Seq<u8>, dir: DirectoryEnd) -> Seq<u8> {
    let off = dir.directory_offset as int;
    data.subrange(off, off + vstd::math::min(dir.directory_size as int, data.len() - off))
}

/// What reading `data` as an archive gives. When the end records rule the
/// directory out, their error. Otherwise the archive exactly when the
/// directory holds the claimed number of headers and each can be built into
/// an entry; its entries are then those of that directory, in order, one
/// per claimed record. `InvalidCentralRecord` exactly when the headers do
/// not fit; `InvalidExtraField` only for a malformed extra field; any other
/// error is a text error.
pub open spec fn read_zip_result(data: Seq<u8>, r: Result<Archive, Error>) -> bool {
    match zip_end(data) {
        Err(f) => r matches Err(Error::Format(g)) && g == f,
        Ok(dir) => {
            let d = directory_bytes(data, dir);
            &&& r is Ok <==> directory_ok(d, dir.directory_records as nat)
            &&& r matches Ok(a) ==> a.size == data.len() && a.entries@.len() == dir.directory_records
                && entries_of_directory(a.entries@, d, a.encoding)
            &&& (r matches Err(Error::Format(FormatError::InvalidCentralRecord))) <==> !headers_fit(
                d,
                dir.directory_records as nat,
            )
            &&& r matches Err(e) ==> (e matches Error::Format(f) && (f is InvalidCentralRecord
                || f is InvalidExtraField)) || e is Encoding
            &&& r matches Err(Error::Format(FormatError::InvalidExtraField)) ==> exists|j: nat, h: CentralDirectoryHeader|
                j < dir.directory_records && #[trigger] central_header_parsed(h, d, header_pos(d, j))
                    && header_extra(&h) is None
        },
    }
}

proof fn lemma_last_eocd(hs: Seq<u8>, i: int)
    requires
        eocd_at(hs, i),
        forall|j: int| i < j ==> !#[trigger] eocd_at(hs, j),
    ensures
        last_eocd(hs) == i,
{
    let k = last_eocd(hs);
    assert(eocd_at(hs, k) && forall|j: int| k < j ==> !#[trigger] eocd_at(hs, j));
    if k < i {
        assert(!eocd_at(hs, i));
    } else if k > i {
        assert(!eocd_at(hs, k));
    }
}

proof fn lemma_le_sub(s: Seq<u8>, o: int, n: int, k: int)
    requires
        0 <= o,
        o + n <= s.len(),
        0 <= k,
        k + 8 <= n,
    ensures
        le16(s.subrange(o, o + n), k) == le16(s, o + k),
        le32(s.subrange(o, o + n), k) == le32(s, o + k),
        le64(s.subrange(o, o + n), k) == le64(s, o + k),
{
    let t = s.subrange(o, o + n);
    assert(t[k] == s[o + k] && t[k + 1] == s[o + k + 1] && t[k + 2] == s[o + k + 2] && t[k + 3] == s[o + k + 3]);
    assert(t[k + 4] == s[o + k + 4] && t[k + 5] == s[o + k + 5] && t[k + 6] == s[o + k + 6] && t[k + 7] == s[o + k + 7]);
}

/// Reads the zip64 record that goes with the end of central directory
/// record at `e`.
fn read_zip64(data: &[u8], e: usize) -> (r: Result<Option<EndOfCentralDirectory64Record>, FormatError>)
    requires
        e <= data@.len(),
    ensures
        r == zip64_of(data@, e as int),
{
    let size = data.len() as u64;
    if e < EOCD64_LOCATOR_SIZE {
        return Ok(None);
    }
    let loc = &data[e - EOCD64_LOCATOR_SIZE..e];
    proof {
        lemma_le_sub(data@, e - 20, 20, 0);
        lemma_le_sub(data@, e - 20, 20, 8);
    }
    match parse_eocd64_locator(loc) {
        None => Ok(None),
        Some(off) => {
            if off >= size || size - off < EOCD64_SIZE as u64 {
                return Err(FormatError::Directory64EndRecordInvalid);
            }
            let o = off as usize;
            let rec = &data[o..o + EOCD64_SIZE];
            proof {
                lemma_le_sub(data@, o as int, 56, 0);
                lemma_le_sub(data@, o as int, 56, 4);
                lemma_le_sub(data@, o as int, 56, 12);
                lemma_le_sub(data@, o as int, 56, 14);
                lemma_le_sub(data@, o as int, 56, 16);
                lemma_le_sub(data@, o as int, 56, 20);
                lemma_le_sub(data@, o as int, 56, 24);
                lemma_le_sub(data@, o as int, 56, 32);
                lemma_le_sub(data@, o as int, 56, 40);
                lemma_le_sub(data@, o as int, 56, 48);
            }
            match parse_eocd64(rec) {
                None => Err(FormatError::Directory64EndRecordInvalid),
                Some(found) => {
                    assert(found == eocd64_from(data@, o as int));
                    Ok(Some(found))
                },
            }
        },
    }
}

/// Finds the last end of central directory record in the tail of `data`
/// and its zip64 record.
fn read_end_records(data: &[u8]) -> (r: Result<(EndOfCentralDirectoryRecord, Option<EndOfCentralDirectory64Record>), FormatError>)
    ensures
        r matches Ok((e, z)) ==> end_fields(data@) == Ok::<(u16, u32, u32, Option<EndOfCentralDirectory64Record>), FormatError>(
            (e.directory_records, e.directory_size, e.directory_offset, z),
        ),
        r matches Err(f) ==> end_fields(data@) == Err::<(u16, u32, u32, Option<EndOfCentralDirectory64Record>), FormatError>(f),
{
    reveal(end_fields);
    let n = data.len();
    let window = EOCD_SIZE + MAX_COMMENT_SIZE;
    let start: usize = if n > window { n - window } else { 0 };
    let hs = &data[start..n];
    assert(hs@ == haystack(data@));
    let i = match find_eocd(hs) {
        None => {
            return Err(FormatError::DirectoryEndSignatureNotFound);
        },
        Some(i) => i,
    };
    proof {
        lemma_last_eocd(hs@, i as int);
    }
    let eocd = parse_eocd(hs, i);
    match read_zip64(data, start + i) {
        Err(f) => Err(f),
        Ok(z) => Ok((eocd, z)),
    }
}

/// Reads the archive held in `data`.
pub fn read_zip_bytes(data: &[u8]) -> (r: Result<Archive, Error>)
    ensures
        read_zip_result(data@, r),
{
    let size = data.len() as u64;
    let (eocd, z) = match read_end_records(data) {
        Err(f) => {
            return Err(Error::Format(f));
        },
        Ok(found) => found,
    };
    let dir = match resolve_directory(&eocd, &z, size) {
        Err(f) => {
            return Err(Error::Format(f));
        },
        Ok(d) => d,
    };
    let off = dir.directory_offset as usize;
    let room = size - dir.directory_offset;
    let needed = if dir.directory_size < room { dir.directory_size } else { room };
    let d = &data[off..off + needed as usize];
    assert(d@ == directory_bytes(data@, dir));
    read_directory(d, &eocd.comment, dir, size)
}

impl ReadZipWithSize for [u8] {
    open spec fn zip_bytes(&self) -> Seq<u8> {
        self@
    }

    fn read_zip_with_size(&self, size: u64) -> (r: Result<Archive, Error>) {
        if size > self.len() as u64 {
            return Err(Error::IO(unexpected_eof()));
        }
        read_zip_bytes(&self[0..size as usize])
    }
}

impl ReadZip for [u8] {
    open spec fn zip_bytes(&self) -> Seq<u8> {
        self@
    }

    fn read_zip(&self) -> (r: Result<Archive, Error>) {
        read_zip_bytes(self)
    }
}

impl ReadZip for Vec<u8> {
    open spec fn zip_bytes(&self) -> Seq<u8> {
        self@
    }

    fn read_zip(&self) -> (r: Result<Archive, Error>) {
        read_zip_bytes(self.as_slice())
    }
}

/// Relies on `std::io::Error::from(ErrorKind::UnexpectedEof)`: the error
/// for input that ended too early.
#[verifier::external_body]
pub(crate) fn unexpected_eof() -> std::io::Error {
    std::io::Error::from(std::io::ErrorKind::UnexpectedEof)
}

} // verus!
