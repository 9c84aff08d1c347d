//! The archive metadata parser: a state machine that names the offsets it
//! needs, is handed the bytes found there, and turns them into an
//! [`Archive`].
use vstd::prelude::*;
use vstd::utf8::{decode_utf8, valid_utf8};
use crate::encoding::{cp437_decoded, decode_text, Encoding};
use crate::entry::{compute_mode, mode_spec, method_spec, DosDateTime, Entry, Method, Version};
use crate::error::{DecodingError, Error, FormatError};
use crate::extra::{apply_extra, parse_extra_fields, ExtraInfo};
use crate::records::{
    CentralDirectoryHeader, EndOfCentralDirectory64Record, EndOfCentralDirectoryRecord,
    CENTRAL_HEADER_SIZE,
};

verus! {

/// A parsed archive: its entries in central directory order, its comment
/// and the encoding its text was decoded with.
pub struct Archive {
    pub size: u64,
    pub encoding: Encoding,
    pub comment: String,
    pub entries: Vec<Entry>,
}

impl Archive {
    pub fn entries(&self) -> (r: &Vec<Entry>)
        ensures
            r@ == self.entries@,
    {
        &self.entries
    }

    /// The archive comment, if it is not empty.
    pub fn comment(&self) -> (r: Option<&String>)
        ensures
            r is Some <==> self.comment@.len() > 0,
            r matches Some(c) ==> c@ == self.comment@,
    {
        if self.comment.as_str().is_empty() {
            None
        } else {
            Some(&self.comment)
        }
    }

    pub fn encoding(&self) -> (r: Encoding)
        ensures
            r == self.encoding,
    {
        self.encoding
    }
}

/// Where the central directory lies and how many records it holds, once
/// zip64 values are applied.
#[derive(Debug, Clone, Copy, PartialEq, Eq, Structural)]
pub struct DirectoryEnd {
    pub directory_offset: u64,
    pub directory_size: u64,
    pub directory_records: u64,
}

/// A 16-bit field, or its zip64 value when the field holds the sentinel.
pub open spec fn resolve16(legacy: u16, z: Option<u64>) -> u64 {
    if legacy == 0xFFFFu16 && z is Some {
        z->0
    } else {
        legacy as u64
    }
}

/// A 32-bit field, or its zip64 value when the field holds the sentinel.
pub open spec fn resolve32(legacy: u32, z: Option<u64>) -> u64 {
    if legacy == 0xFFFF_FFFFu32 && z is Some {
        z->0
    } else {
        legacy as u64
    }
}

/// True when `records` central directory records, each at least
/// `CENTRAL_HEADER_SIZE` bytes long, can fit between `offset` and the end
/// of a file of `size` bytes.
pub open spec fn records_fit(records: u64, offset: u64, size: u64) -> bool {
    records * CENTRAL_HEADER_SIZE <= size - offset
}

/// The record count that the records give.
pub open spec fn resolved_records(
    eocd: &EndOfCentralDirectoryRecord,
    z: &Option<EndOfCentralDirectory64Record>,
) -> u64 {
    let zr = match *z { Some(r) => Some(r.directory_records), None => None };
    resolve16(eocd.directory_records, zr)
}

/// The directory offset that the records give.
pub open spec fn resolved_offset(
    eocd: &EndOfCentralDirectoryRecord,
    z: &Option<EndOfCentralDirectory64Record>,
) -> u64 {
    let zo = match *z { Some(r) => Some(r.directory_offset), None => None };
    resolve32(eocd.directory_offset, zo)
}

/// The directory that an end of central directory record, and the zip64
/// record when there is one, describe in a file of `size` bytes, or the
/// error that rules it out.
pub open spec fn resolved_directory(
    eocd: &EndOfCentralDirectoryRecord,
    z: &Option<EndOfCentralDirectory64Record>,
    size: u64,
) -> Result<DirectoryEnd, FormatError> {
    resolved_from(eocd.directory_records, eocd.directory_size, eocd.directory_offset, *z, size)
}

/// The directory that the record count, directory size and directory
/// offset fields of an end of central directory record give, with the
/// zip64 record `z` when there is one, in a file of `size` bytes, or the
/// error that rules it out.
pub open spec fn resolved_from(
    records16: u16,
    size32: u32,
    offset32: u32,
    z: Option<EndOfCentralDirectory64Record>,
    size: u64,
) -> Result<DirectoryEnd, FormatError> {
    let records = resolve16(records16, match z { Some(r) => Some(r.directory_records), None => None });
    let dsize = resolve32(size32, match z { Some(r) => Some(r.directory_size), None => None });
    let offset = resolve32(offset32, match z { Some(r) => Some(r.directory_offset), None => None });
    if offset >= size {
        Err(FormatError::DirectoryOffsetPointsOutsideFile)
    } else if !records_fit(records, offset, size) {
        Err(FormatError::ImpossibleNumberOfFiles { claimed_records_count: records, zip_size: size })
    } else {
        Ok(DirectoryEnd { directory_offset: offset, directory_size: dsize, directory_records: records })
    }
}

/// Resolves the directory's place and record count, and rejects a claimed
/// record count that the file cannot hold before anything is allocated for
/// the records.
pub fn resolve_directory(
    eocd: &EndOfCentralDirectoryRecord,
    z: &Option<EndOfCentralDirectory64Record>,
    size: u64,
) -> (r: Result<DirectoryEnd, FormatError>)
    ensures
        r == resolved_directory(eocd, z, size),
{
    let (records, dsize, offset) = match z {
        Some(z) => (
            if eocd.directory_records == 0xFFFFu16 { z.directory_records } else { eocd.directory_records as u64 },
            if eocd.directory_size == 0xFFFF_FFFFu32 { z.directory_size } else { eocd.directory_size as u64 },
            if eocd.directory_offset == 0xFFFF_FFFFu32 { z.directory_offset } else { eocd.directory_offset as u64 },
        ),
        None => (eocd.directory_records as u64, eocd.directory_size as u64, eocd.directory_offset as u64),
    };
    if offset >= size {
        Err(FormatError::DirectoryOffsetPointsOutsideFile)
    } else if (records as u128) * (CENTRAL_HEADER_SIZE as u128) > ((size - offset) as u128) {
        Err(FormatError::ImpossibleNumberOfFiles { claimed_records_count: records, zip_size: size })
    } else {
        Ok(DirectoryEnd { directory_offset: offset, directory_size: dsize, directory_records: records })
    }
}


/// General purpose flag bit: names and comments are UTF-8.
pub const FLAG_UTF8: u16 = 0x800;

/// `t` is `b` decoded under `enc`.
pub open spec fn text_decoded(b: Seq<u8>, enc: Encoding, t: Seq<char>) -> bool {
    match enc {
        Encoding::Utf8 => valid_utf8(b) && t == decode_utf8(b),
        Encoding::Cp437 => cp437_decoded(b, t),
    }
}

/// The encoding of one entry's text: UTF-8 when its header flags it so,
/// else the archive's.
pub open spec fn entry_encoding(flags: u16, archive: Encoding) -> Encoding {
    if flags & FLAG_UTF8 != 0 {
        Encoding::Utf8
    } else {
        archive
    }
}

/// What the extra fields of `h` make of its sizes, offset and owner.
pub open spec fn header_extra(h: &CentralDirectoryHeader) -> Option<ExtraInfo> {
    apply_extra(
        h.extra@,
        0,
        ExtraInfo {
            uncompressed_size: h.uncompressed_size as u64,
            compressed_size: h.compressed_size as u64,
            header_offset: h.header_offset as u64,
            uid: None,
            gid: None,
            mtime: None,
            atime: None,
            ctime: None,
        },
        h.uncompressed_size,
        h.compressed_size,
        h.header_offset,
    )
}

/// `e` is the entry that header `h` describes, text decoded under `enc`.
pub open spec fn entry_of_header(e: Entry, h: &CentralDirectoryHeader, enc: Encoding) -> bool {
    let x = header_extra(h)->0;
    &&& header_extra(h) is Some
    &&& text_decoded(h.name@, entry_encoding(h.flags, enc), e.name@)
    &&& text_decoded(h.comment@, entry_encoding(h.flags, enc), e.comment@)
    &&& e.method == method_spec(h.method)
    &&& e.crc32 == h.crc32
    &&& e.uncompressed_size == x.uncompressed_size
    &&& e.compressed_size == x.compressed_size
    &&& e.header_offset == x.header_offset
    &&& e.uid == x.uid
    &&& e.gid == x.gid
    &&& e.modified_unix == x.mtime
    &&& e.accessed == x.atime
    &&& e.created == x.ctime
    &&& e.modified == (DosDateTime { date: h.modified_date, time: h.modified_time })
    &&& e.creator_version == (Version { raw: h.creator_version })
    &&& e.reader_version == (Version { raw: h.reader_version })
    &&& e.flags == h.flags
    &&& e.external_attrs == h.external_attrs
    &&& e.mode == mode_spec(h.creator_version, h.external_attrs, h.name@)
}

fn decode_for(b: &Vec<u8>, enc: Encoding) -> (r: Result<String, Error>)
    ensures
        r matches Ok(t) ==> text_decoded(b@, enc, t@),
        r is Err ==> r == Err::<String, Error>(Error::Encoding(DecodingError::Utf8Error)) && enc
            == Encoding::Utf8 && !valid_utf8(b@),
{
    match decode_text(b.as_slice(), enc) {
        Some(t) => Ok(t),
        None => Err(Error::Encoding(DecodingError::Utf8Error)),
    }
}

/// Builds the entry that a central directory header describes.
pub fn build_entry(h: &CentralDirectoryHeader, enc: Encoding) -> (r: Result<Entry, Error>)
    ensures
        r matches Ok(e) ==> entry_of_header(e, h, enc),
        header_extra(h) is None ==> r matches Err(Error::Format(FormatError::InvalidExtraField)),
        r matches Err(e) ==> (e == Error::Format(FormatError::InvalidExtraField) && header_extra(h) is None)
            || (e == Error::Encoding(DecodingError::Utf8Error) && entry_encoding(h.flags, enc)
            == Encoding::Utf8 && (!valid_utf8(h.name@) || !valid_utf8(h.comment@))),
{
    let init = ExtraInfo {
        uncompressed_size: h.uncompressed_size as u64,
        compressed_size: h.compressed_size as u64,
        header_offset: h.header_offset as u64,
        uid: None,
        gid: None,
        mtime: None,
        atime: None,
        ctime: None,
    };
    let x = match parse_extra_fields(h.extra.as_slice(), init, h.uncompressed_size, h.compressed_size, h.header_offset) {
        Some(x) => x,
        None => {
            return Err(Error::Format(FormatError::InvalidExtraField));
        },
    };
    let e_enc = if h.flags & FLAG_UTF8 != 0 { Encoding::Utf8 } else { enc };
    let name = decode_for(&h.name, e_enc)?;
    let comment = decode_for(&h.comment, e_enc)?;
    Ok(Entry {
        name,
        comment,
        method: Method::from_u16(h.method),
        crc32: h.crc32,
        compressed_size: x.compressed_size,
        uncompressed_size: x.uncompressed_size,
        header_offset: x.header_offset,
        modified: DosDateTime { date: h.modified_date, time: h.modified_time },
        uid: x.uid,
        gid: x.gid,
        modified_unix: x.mtime,
        accessed: x.atime,
        created: x.ctime,
        creator_version: Version { raw: h.creator_version },
        reader_version: Version { raw: h.reader_version },
        flags: h.flags,
        external_attrs: h.external_attrs,
        mode: compute_mode(h.creator_version, h.external_attrs, h.name.as_slice()),
    })
}

} // verus!
