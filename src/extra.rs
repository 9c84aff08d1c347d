//! Extra fields of a central directory header: zip64 sizes and offsets, and
//! Unix owner ids.
use vstd::prelude::*;
use crate::le::{le16, le32, le64, read_u16, read_u32, read_u64};

verus! {

pub const ZIP64_EXTRA_TAG: u16 = 0x0001;
pub const UNIX_OWNER_EXTRA_TAG: u16 = 0x7875;
pub const TIMESTAMP_EXTRA_TAG: u16 = 0x5455;
/// Value of a 32-bit field whose real value lies in the zip64 extra field.
pub const SENTINEL_32: u32 = 0xFFFF_FFFF;

/// What the extra fields of one header say, on top of the header's own
/// fields.
#[derive(Clone, Copy, PartialEq, Eq, Structural)]
pub struct ExtraInfo {
    pub uncompressed_size: u64,
    pub compressed_size: u64,
    pub header_offset: u64,
    pub uid: Option<u32>,
    pub gid: Option<u32>,
    /// Unix times, in seconds, of last modification, access and creation.
    pub mtime: Option<i32>,
    pub atime: Option<i32>,
    pub ctime: Option<i32>,
}

/// Applies a zip64 extra field body `b`: it holds, in this order, a 64-bit
/// value for each of the uncompressed size, compressed size and header
/// offset whose 32-bit field holds the sentinel.
pub open spec fn apply_zip64(b: Seq<u8>, acc: ExtraInfo, lu: u32, lc: u32, lo: u32) -> Option<ExtraInfo> {
    let n1: int = if lu == SENTINEL_32 { 8 } else { 0 };
    let n2: int = n1 + if lc == SENTINEL_32 { 8int } else { 0int };
    let n3: int = n2 + if lo == SENTINEL_32 { 8int } else { 0int };
    if b.len() < n3 {
        None
    } else {
        Some(ExtraInfo {
            uncompressed_size: if lu == SENTINEL_32 { le64(b, 0) as u64 } else { acc.uncompressed_size },
            compressed_size: if lc == SENTINEL_32 { le64(b, n1) as u64 } else { acc.compressed_size },
            header_offset: if lo == SENTINEL_32 { le64(b, n2) as u64 } else { acc.header_offset },
            ..acc
        })
    }
}

/// Applies a Unix owner extra field body `b`: a version byte, then a size
/// byte and an id for the uid, then for the gid. Ids of four bytes are kept.
pub open spec fn apply_unix_owner(b: Seq<u8>, acc: ExtraInfo) -> Option<ExtraInfo> {
    if b.len() < 2 {
        None
    } else {
        let us = b[1] as int;
        if b.len() < 3 + us {
            None
        } else {
            let gs = b[2 + us] as int;
            if b.len() < 3 + us + gs {
                None
            } else {
                Some(ExtraInfo {
                    uid: if us == 4 { Some(le32(b, 2) as u32) } else { acc.uid },
                    gid: if gs == 4 { Some(le32(b, 3 + us) as u32) } else { acc.gid },
                    ..acc
                })
            }
        }
    }
}

/// Applies an extended timestamp extra field body `b`: a flags byte, then
/// for each of bits 0, 1 and 2 that is set, the modification, access and
/// creation time, as far as the body holds them.
pub open spec fn apply_timestamps(b: Seq<u8>, acc: ExtraInfo) -> Option<ExtraInfo> {
    if b.len() < 1 {
        None
    } else {
        let flags = b[0];
        let m = flags & 1 != 0 && b.len() >= 5;
        let p1: int = if m { 5 } else { 1 };
        let a = flags & 2 != 0 && b.len() >= p1 + 4;
        let p2: int = if a { p1 + 4 } else { p1 };
        let c = flags & 4 != 0 && b.len() >= p2 + 4;
        Some(ExtraInfo {
            mtime: if m { Some(le32(b, 1) as u32 as i32) } else { acc.mtime },
            atime: if a { Some(le32(b, p1) as u32 as i32) } else { acc.atime },
            ctime: if c { Some(le32(b, p2) as u32 as i32) } else { acc.ctime },
            ..acc
        })
    }
}

/// Applies the extra fields of `s` from `pos` on. A field is a 16-bit tag,
/// a 16-bit size and that many bytes; fields of other tags are skipped, and
/// a field cut short by the end of the block ends it. `None` when a
/// recognized field is malformed.
pub open spec fn apply_extra(s: Seq<u8>, pos: int, acc: ExtraInfo, lu: u32, lc: u32, lo: u32) -> Option<ExtraInfo>
    decreases s.len() - pos,
{
    if pos < 0 || pos + 4 > s.len() {
        Some(acc)
    } else {
        let tag = le16(s, pos);
        let size = le16(s, pos + 2);
        let next = pos + 4 + size;
        if next > s.len() {
            Some(acc)
        } else {
            let body = s.subrange(pos + 4, next);
            let step = if tag == ZIP64_EXTRA_TAG {
                apply_zip64(body, acc, lu, lc, lo)
            } else if tag == UNIX_OWNER_EXTRA_TAG {
                apply_unix_owner(body, acc)
            } else if tag == TIMESTAMP_EXTRA_TAG {
                apply_timestamps(body, acc)
            } else {
                Some(acc)
            };
            match step {
                None => None,
                Some(a) => apply_extra(s, next, a, lu, lc, lo),
            }
        }
    }
}

fn zip64_field(b: &[u8], acc: ExtraInfo, lu: u32, lc: u32, lo: u32) -> (r: Option<ExtraInfo>)
    ensures
        r == apply_zip64(b@, acc, lu, lc, lo),
{
    let n = b.len();
    let n1: usize = if lu == SENTINEL_32 { 8 } else { 0 };
    let n2: usize = n1 + if lc == SENTINEL_32 { 8usize } else { 0usize };
    let n3: usize = n2 + if lo == SENTINEL_32 { 8usize } else { 0usize };
    if n < n3 {
        return None;
    }
    let mut out = acc;
    if lu == SENTINEL_32 {
        out.uncompressed_size = read_u64(b, 0);
    }
    if lc == SENTINEL_32 {
        out.compressed_size = read_u64(b, n1);
    }
    if lo == SENTINEL_32 {
        out.header_offset = read_u64(b, n2);
    }
    Some(out)
}

fn unix_owner_field(b: &[u8], acc: ExtraInfo) -> (r: Option<ExtraInfo>)
    ensures
        r == apply_unix_owner(b@, acc),
{
    let n = b.len();
    if n < 2 {
        return None;
    }
    let us = b[1] as usize;
    if n < 3 + us {
        return None;
    }
    let gs = b[2 + us] as usize;
    if n < 3 + us + gs {
        return None;
    }
    let mut out = acc;
    if us == 4 {
        out.uid = Some(read_u32(b, 2));
    }
    if gs == 4 {
        out.gid = Some(read_u32(b, 3 + us));
    }
    Some(out)
}

fn timestamp_field(b: &[u8], acc: ExtraInfo) -> (r: Option<ExtraInfo>)
    ensures
        r == apply_timestamps(b@, acc),
{
    let n = b.len();
    if n < 1 {
        return None;
    }
    let flags = b[0];
    let m = flags & 1 != 0 && n >= 5;
    let p1: usize = if m { 5 } else { 1 };
    let a = flags & 2 != 0 && n >= p1 + 4;
    let p2: usize = if a { p1 + 4 } else { p1 };
    let c = flags & 4 != 0 && n >= p2 + 4;
    let mut out = acc;
    if m {
        out.mtime = Some(read_u32(b, 1) as i32);
    }
    if a {
        out.atime = Some(read_u32(b, p1) as i32);
    }
    if c {
        out.ctime = Some(read_u32(b, p2) as i32);
    }
    Some(out)
}

/// Applies every extra field of the block `s` to `init`; `lu`, `lc` and
/// `lo` are the header's 32-bit uncompressed size, compressed size and
/// header offset.
pub fn parse_extra_fields(s: &[u8], init: ExtraInfo, lu: u32, lc: u32, lo: u32) -> (r: Option<ExtraInfo>)
    ensures
        r == apply_extra(s@, 0, init, lu, lc, lo),
{
    let n = s.len();
    let mut pos: usize = 0;
    let mut acc = init;
    while n - pos >= 4
        invariant
            n == s@.len(),
            pos <= n,
            apply_extra(s@, 0, init, lu, lc, lo) == apply_extra(s@, pos as int, acc, lu, lc, lo),
        decreases n - pos,
    {
        let tag = read_u16(s, pos);
        let size = read_u16(s, pos + 2) as usize;
        if n - pos - 4 < size {
            return Some(acc);
        }
        let next = pos + 4 + size;
        let body = &s[pos + 4..next];
        let step = if tag == ZIP64_EXTRA_TAG {
            zip64_field(body, acc, lu, lc, lo)
        } else if tag == UNIX_OWNER_EXTRA_TAG {
            unix_owner_field(body, acc)
        } else if tag == TIMESTAMP_EXTRA_TAG {
            timestamp_field(body, acc)
        } else {
            Some(acc)
        };
        match step {
            None => {
                return None;
            },
            Some(a) => {
                acc = a;
                pos = next;
            },
        }
    }
    Some(acc)
}

} // verus!
