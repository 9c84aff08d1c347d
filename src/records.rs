//! The fixed-layout records of the ZIP format: the end of central directory
//! record, the zip64 locator and zip64 end of central directory record, and
//! the central directory file header.
use vstd::prelude::*;
use vstd::slice::slice_to_vec;
use crate::le::{le16, le32, le64, read_u16, read_u32, read_u64};

verus! {

pub const EOCD_SIGNATURE: u32 = 0x06054b50;
pub const EOCD64_LOCATOR_SIGNATURE: u32 = 0x07064b50;
pub const EOCD64_SIGNATURE: u32 = 0x06064b50;
pub const CENTRAL_HEADER_SIGNATURE: u32 = 0x02014b50;
pub const LOCAL_HEADER_SIGNATURE: u32 = 0x04034b50;

/// Fixed part of the end of central directory record.
pub const EOCD_SIZE: usize = 22;
/// Size of the zip64 end of central directory locator.
pub const EOCD64_LOCATOR_SIZE: usize = 20;
/// Fixed part of the zip64 end of central directory record.
pub const EOCD64_SIZE: usize = 56;
/// Fixed part of a central directory file header: the least room any
/// central directory record can take.
pub const CENTRAL_HEADER_SIZE: usize = 46;
/// Fixed part of a local file header.
pub const LOCAL_HEADER_SIZE: usize = 30;
/// Longest comment an end of central directory record can hold.
pub const MAX_COMMENT_SIZE: usize = 65535;

/// The end of central directory record, as stored.
pub struct EndOfCentralDirectoryRecord {
    pub disk_nbr: u16,
    pub dir_disk_nbr: u16,
    pub dir_records_this_disk: u16,
    pub directory_records: u16,
    pub directory_size: u32,
    pub directory_offset: u32,
    pub comment: Vec<u8>,
}

/// The zip64 end of central directory record, as stored.
pub struct EndOfCentralDirectory64Record {
    pub record_size: u64,
    pub creator_version: u16,
    pub reader_version: u16,
    pub disk_nbr: u32,
    pub dir_disk_nbr: u32,
    pub dir_records_this_disk: u64,
    pub directory_records: u64,
    pub directory_size: u64,
    pub directory_offset: u64,
}

/// A central directory file header, as stored (before extra fields are
/// applied and text is decoded).
pub struct CentralDirectoryHeader {
    pub creator_version: u16,
    pub reader_version: u16,
    pub flags: u16,
    pub method: u16,
    pub modified_time: u16,
    pub modified_date: u16,
    pub crc32: u32,
    pub compressed_size: u32,
    pub uncompressed_size: u32,
    pub disk_nbr_start: u16,
    pub internal_attrs: u16,
    pub external_attrs: u32,
    pub header_offset: u32,
    pub name: Vec<u8>,
    pub extra: Vec<u8>,
    pub comment: Vec<u8>,
}

/// True when a complete end of central directory record, comment included,
/// starts at `i` in `s`.
pub open spec fn eocd_at(s: Seq<u8>, i: int) -> bool {
    &&& 0 <= i
    &&& i + EOCD_SIZE <= s.len()
    &&& le32(s, i) == EOCD_SIGNATURE
    &&& i + EOCD_SIZE + le16(s, i + 20) <= s.len()
}

/// `r` holds the fields of the end of central directory record at `i`.
pub open spec fn eocd_parsed(r: EndOfCentralDirectoryRecord, s: Seq<u8>, i: int) -> bool {
    &&& r.disk_nbr == le16(s, i + 4)
    &&& r.dir_disk_nbr == le16(s, i + 6)
    &&& r.dir_records_this_disk == le16(s, i + 8)
    &&& r.directory_records == le16(s, i + 10)
    &&& r.directory_size == le32(s, i + 12)
    &&& r.directory_offset == le32(s, i + 16)
    &&& r.comment@ == s.subrange(i + 22, i + 22 + le16(s, i + 20))
}

/// True when a zip64 end of central directory record starts at 0 in `s`.
pub open spec fn eocd64_valid(s: Seq<u8>) -> bool {
    s.len() >= EOCD64_SIZE && le32(s, 0) == EOCD64_SIGNATURE
}

/// `r` holds the fields of the zip64 end of central directory record at 0.
pub open spec fn eocd64_parsed(r: EndOfCentralDirectory64Record, s: Seq<u8>) -> bool {
    &&& r.record_size == le64(s, 4)
    &&& r.creator_version == le16(s, 12)
    &&& r.reader_version == le16(s, 14)
    &&& r.disk_nbr == le32(s, 16)
    &&& r.dir_disk_nbr == le32(s, 20)
    &&& r.dir_records_this_disk == le64(s, 24)
    &&& r.directory_records == le64(s, 32)
    &&& r.directory_size == le64(s, 40)
    &&& r.directory_offset == le64(s, 48)
}

/// Bytes taken by the central directory header at `i`, variable parts
/// included.
pub open spec fn central_header_len(s: Seq<u8>, i: int) -> int {
    CENTRAL_HEADER_SIZE + le16(s, i + 28) + le16(s, i + 30) + le16(s, i + 32)
}

/// `h` holds the fields of the central directory header at `i`.
pub open spec fn central_header_parsed(h: CentralDirectoryHeader, s: Seq<u8>, i: int) -> bool {
    let name_end = i + 46 + le16(s, i + 28);
    let extra_end = name_end + le16(s, i + 30);
    &&& h.creator_version == le16(s, i + 4)
    &&& h.reader_version == le16(s, i + 6)
    &&& h.flags == le16(s, i + 8)
    &&& h.method == le16(s, i + 10)
    &&& h.modified_time == le16(s, i + 12)
    &&& h.modified_date == le16(s, i + 14)
    &&& h.crc32 == le32(s, i + 16)
    &&& h.compressed_size == le32(s, i + 20)
    &&& h.uncompressed_size == le32(s, i + 24)
    &&& h.disk_nbr_start == le16(s, i + 34)
    &&& h.internal_attrs == le16(s, i + 36)
    &&& h.external_attrs == le32(s, i + 38)
    &&& h.header_offset == le32(s, i + 42)
    &&& h.name@ == s.subrange(i + 46, name_end)
    &&& h.extra@ == s.subrange(name_end, extra_end)
    &&& h.comment@ == s.subrange(extra_end, extra_end + le16(s, i + 32))
}

/// Outcome of reading a central directory header from a buffer.
pub enum HeaderRead {
    /// The buffer ends before the header does.
    Incomplete,
    /// The bytes there are not a central directory header.
    Invalid,
    /// A header, and the position right after it.
    Parsed(CentralDirectoryHeader, usize),
}

pub fn is_eocd_at(s: &[u8], i: usize) -> (r: bool)
    ensures
        r == eocd_at(s@, i as int),
{
    let n = s.len();
    if i > n || n - i < EOCD_SIZE {
        return false;
    }
    if read_u32(s, i) != EOCD_SIGNATURE {
        return false;
    }
    let clen = read_u16(s, i + 20) as usize;
    clen <= n - i - EOCD_SIZE
}

/// Finds the end of central directory record nearest the end of `s`.
pub fn find_eocd(s: &[u8]) -> (r: Option<usize>)
    ensures
        r matches Some(i) ==> eocd_at(s@, i as int) && forall|j: int|
            i < j ==> !#[trigger] eocd_at(s@, j),
        r is None ==> forall|j: int| !#[trigger] eocd_at(s@, j),
{
    let n = s.len();
    if n < EOCD_SIZE {
        return None;
    }
    let mut i: usize = n - EOCD_SIZE + 1;
    while i > 0
        invariant
            n == s@.len(),
            n >= EOCD_SIZE,
            i <= n - EOCD_SIZE + 1,
            forall|j: int| i <= j ==> !#[trigger] eocd_at(s@, j),
        decreases i,
    {
        i = i - 1;
        if is_eocd_at(s, i) {
            return Some(i);
        }
    }
    None
}

pub fn parse_eocd(s: &[u8], i: usize) -> (r: EndOfCentralDirectoryRecord)
    requires
        eocd_at(s@, i as int),
    ensures
        eocd_parsed(r, s@, i as int),
{
    let _n = s.len();
    let clen = read_u16(s, i + 20) as usize;
    EndOfCentralDirectoryRecord {
        disk_nbr: read_u16(s, i + 4),
        dir_disk_nbr: read_u16(s, i + 6),
        dir_records_this_disk: read_u16(s, i + 8),
        directory_records: read_u16(s, i + 10),
        directory_size: read_u32(s, i + 12),
        directory_offset: read_u32(s, i + 16),
        comment: slice_to_vec(&s[i + 22..i + 22 + clen]),
    }
}

/// Reads a zip64 end of central directory locator; gives the offset of the
/// zip64 end of central directory record it points to.
pub fn parse_eocd64_locator(s: &[u8]) -> (r: Option<u64>)
    ensures
        r is Some <==> s@.len() >= EOCD64_LOCATOR_SIZE && le32(s@, 0)
            == EOCD64_LOCATOR_SIGNATURE,
        r matches Some(off) ==> off == le64(s@, 8),
{
    if s.len() < EOCD64_LOCATOR_SIZE || read_u32(s, 0) != EOCD64_LOCATOR_SIGNATURE {
        return None;
    }
    Some(read_u64(s, 8))
}

pub fn parse_eocd64(s: &[u8]) -> (r: Option<EndOfCentralDirectory64Record>)
    ensures
        r is Some <==> eocd64_valid(s@),
        r matches Some(rec) ==> eocd64_parsed(rec, s@),
{
    if s.len() < EOCD64_SIZE || read_u32(s, 0) != EOCD64_SIGNATURE {
        return None;
    }
    Some(
        EndOfCentralDirectory64Record {
            record_size: read_u64(s, 4),
            creator_version: read_u16(s, 12),
            reader_version: read_u16(s, 14),
            disk_nbr: read_u32(s, 16),
            dir_disk_nbr: read_u32(s, 20),
            dir_records_this_disk: read_u64(s, 24),
            directory_records: read_u64(s, 32),
            directory_size: read_u64(s, 40),
            directory_offset: read_u64(s, 48),
        },
    )
}

/// Reads the central directory header at `i`.
pub fn parse_central_header(s: &[u8], i: usize) -> (r: HeaderRead)
    requires
        i <= s@.len(),
    ensures
        r is Incomplete <==> (i + CENTRAL_HEADER_SIZE > s@.len() || (le32(s@, i as int)
            == CENTRAL_HEADER_SIGNATURE && i + central_header_len(s@, i as int) > s@.len())),
        r is Invalid <==> (i + CENTRAL_HEADER_SIZE <= s@.len() && le32(s@, i as int)
            != CENTRAL_HEADER_SIGNATURE),
        r matches HeaderRead::Parsed(h, next) ==> {
            &&& next == i + central_header_len(s@, i as int)
            &&& next <= s@.len()
            &&& central_header_parsed(h, s@, i as int)
        },
{
    let n = s.len();
    if n - i < CENTRAL_HEADER_SIZE {
        return HeaderRead::Incomplete;
    }
    if read_u32(s, i) != CENTRAL_HEADER_SIGNATURE {
        return HeaderRead::Invalid;
    }
    let name_len = read_u16(s, i + 28) as usize;
    let extra_len = read_u16(s, i + 30) as usize;
    let comment_len = read_u16(s, i + 32) as usize;
    if n - i - CENTRAL_HEADER_SIZE < name_len + extra_len + comment_len {
        return HeaderRead::Incomplete;
    }
    let name_end = i + 46 + name_len;
    let extra_end = name_end + extra_len;
    let next = extra_end + comment_len;
    let h = CentralDirectoryHeader {
        creator_version: read_u16(s, i + 4),
        reader_version: read_u16(s, i + 6),
        flags: read_u16(s, i + 8),
        method: read_u16(s, i + 10),
        modified_time: read_u16(s, i + 12),
        modified_date: read_u16(s, i + 14),
        crc32: read_u32(s, i + 16),
        compressed_size: read_u32(s, i + 20),
        uncompressed_size: read_u32(s, i + 24),
        disk_nbr_start: read_u16(s, i + 34),
        internal_attrs: read_u16(s, i + 36),
        external_attrs: read_u32(s, i + 38),
        header_offset: read_u32(s, i + 42),
        name: slice_to_vec(&s[i + 46..name_end]),
        extra: slice_to_vec(&s[name_end..extra_end]),
        comment: slice_to_vec(&s[extra_end..next]),
    };
    HeaderRead::Parsed(h, next)
}

} // verus!
