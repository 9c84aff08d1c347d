//! The pull-based archive reader: it asks for bytes at offsets of its
//! choosing, and never reads them itself.
use vstd::prelude::*;
use vstd::utf8::valid_utf8;
use crate::archive::{
    build_entry, entry_of_header, header_extra, resolve_directory, resolved_directory, resolved_records, Archive,
    DirectoryEnd, FLAG_UTF8,
};
use crate::encoding::{is_utf8, Encoding};
use crate::entry::Entry;
use crate::le::le32;
use crate::error::{Error, FormatError};
use crate::records::{
    central_header_len, central_header_parsed, eocd64_valid, eocd_at, find_eocd,
    parse_central_header, parse_eocd, parse_eocd64, parse_eocd64_locator, CentralDirectoryHeader,
    CENTRAL_HEADER_SIGNATURE, CENTRAL_HEADER_SIZE,
    EndOfCentralDirectory64Record, EndOfCentralDirectoryRecord, HeaderRead, EOCD64_LOCATOR_SIZE,
    EOCD64_SIZE, EOCD_SIZE, MAX_COMMENT_SIZE,
};

verus! {

/// What the reader is waiting for.
pub enum ReaderState {
    /// The tail of the file, where the end of central directory record is
    /// searched for.
    ReadEocd,
    /// The bytes right before the end of central directory record, where a
    /// zip64 locator may stand.
    ReadEocd64Locator { eocd: EndOfCentralDirectoryRecord },
    /// The zip64 end of central directory record.
    ReadEocd64 { eocd: EndOfCentralDirectoryRecord },
    /// The central directory.
    ReadCentralDirectory {
        eocd: EndOfCentralDirectoryRecord,
        zip64: Option<EndOfCentralDirectory64Record>,
        dir: DirectoryEnd,
    },
    /// The archive has been handed out.
    Done,
}

/// Outcome of one step of the reader.
pub enum ArchiveReaderResult {
    /// More bytes are needed, or another step is due.
    Continue,
    /// The archive is complete.
    Done(Archive),
}

/// Reads the metadata of an archive of known size. Callers loop: when
/// `wants_read` names an offset, they hand `read` the bytes found there;
/// then they call `process`, until it gives the archive or an error.
pub struct ArchiveReader {
    pub size: u64,
    pub state: ReaderState,
    /// Offset of the first byte of the region the current state needs.
    pub start: u64,
    /// Length of that region.
    pub needed: u64,
    /// The bytes of that region received so far.
    pub buffer: Vec<u8>,
}

/// Rank of a state: each step that does not wait for bytes moves to a state
/// of lower rank.
pub open spec fn state_rank(s: ReaderState) -> int {
    match s {
        ReaderState::ReadEocd => 4,
        ReaderState::ReadEocd64Locator { .. } => 3,
        ReaderState::ReadEocd64 { .. } => 2,
        ReaderState::ReadCentralDirectory { .. } => 1,
        ReaderState::Done => 0,
    }
}

impl ArchiveReader {
    pub open spec fn wf(&self) -> bool {
        &&& self.buffer@.len() <= self.needed
        &&& self.start + self.needed <= self.size
        &&& self.state matches ReaderState::ReadCentralDirectory { eocd, zip64, dir } ==> resolved_directory(
            &eocd,
            &zip64,
            self.size,
        ) == Ok::<DirectoryEnd, FormatError>(dir)
    }

    pub open spec fn is_done(&self) -> bool {
        self.state is Done
    }

    /// True when the region the current state needs has been received.
    pub open spec fn has_region(&self) -> bool {
        self.buffer@.len() == self.needed
    }

    /// Decreases at every step of a caller's loop.
    pub open spec fn measure(&self) -> int {
        state_rank(self.state) * (self.size + 1) + (self.needed - self.buffer@.len())
    }

    /// Offset of the tail in which the end of central directory record is
    /// searched for: the fixed record and the longest comment.
    pub open spec fn haystack_start(size: u64) -> u64 {
        if size > EOCD_SIZE + MAX_COMMENT_SIZE {
            (size - (EOCD_SIZE + MAX_COMMENT_SIZE)) as u64
        } else {
            0
        }
    }

    /// A reader for an archive of `size` bytes.
    pub fn new(size: u64) -> (r: ArchiveReader)
        ensures
            r.wf(),
            r.size == size,
            r.state is ReadEocd,
            r.start == Self::haystack_start(size),
            r.needed == size - Self::haystack_start(size),
            r.buffer@.len() == 0,
    {
        let haystack = (EOCD_SIZE + MAX_COMMENT_SIZE) as u64;
        let start = if size > haystack { size - haystack } else { 0 };
        ArchiveReader { size, state: ReaderState::ReadEocd, start, needed: size - start, buffer: Vec::new() }
    }

    /// The offset to read from next, if the reader waits for bytes.
    pub fn wants_read(&self) -> (r: Option<u64>)
        requires
            self.wf(),
        ensures
            r is Some <==> !self.is_done() && !self.has_region(),
            r matches Some(off) ==> off == self.start + self.buffer@.len() && off < self.size,
    {
        match self.state {
            ReaderState::Done => None,
            _ => {
                if (self.buffer.len() as u64) < self.needed {
                    Some(self.start + self.buffer.len() as u64)
                } else {
                    None
                }
            },
        }
    }

    /// Takes the bytes found at the offset that `wants_read` named, as many
    /// as the current region still lacks, and tells how many it took.
    pub fn read(&mut self, data: &[u8]) -> (r: usize)
        requires
            old(self).wf(),
        ensures
            final(self).wf(),
            final(self).size == old(self).size,
            final(self).state == old(self).state,
            final(self).start == old(self).start,
            final(self).needed == old(self).needed,
            r as int == if old(self).is_done() {
                0
            } else {
                vstd::math::min(data@.len() as int, old(self).needed - old(self).buffer@.len())
            },
            final(self).buffer@ == old(self).buffer@ + data@.subrange(0, r as int),
    {
        let take: usize = match self.state {
            ReaderState::Done => 0,
            _ => {
                let missing = self.needed - self.buffer.len() as u64;
                if (data.len() as u64) < missing {
                    data.len()
                } else {
                    missing as usize
                }
            },
        };
        let mut i: usize = 0;
        while i < take
            invariant
                take <= data@.len(),
                i <= take,
                self.size == old(self).size,
                self.state == old(self).state,
                self.start == old(self).start,
                self.needed == old(self).needed,
                self.buffer@ == old(self).buffer@ + data@.subrange(0, i as int),
            decreases take - i,
        {
            self.buffer.push(data[i]);
            i = i + 1;
            proof {
                assert(data@.subrange(0, i as int) == data@.subrange(0, i - 1) + seq![data@[i - 1]]);
            }
        }
        take
    }

    /// Moves to the state that waits for `needed` bytes at `start`.
    fn enter(&mut self, state: ReaderState, start: u64, needed: u64)
        requires
            start + needed <= old(self).size,
            state matches ReaderState::ReadCentralDirectory { eocd, zip64, dir } ==> resolved_directory(
                &eocd,
                &zip64,
                old(self).size,
            ) == Ok::<DirectoryEnd, FormatError>(dir),
        ensures
            final(self).wf(),
            final(self).size == old(self).size,
            final(self).state == state,
            final(self).start == start,
            final(self).needed == needed,
            final(self).buffer@.len() == 0,
    {
        self.state = state;
        self.start = start;
        self.needed = needed;
        self.buffer = Vec::new();
    }

    /// Moves to the state that reads the central directory, or fails when
    /// the directory cannot lie in the file.
    fn enter_directory(&mut self, eocd: EndOfCentralDirectoryRecord, z: Option<EndOfCentralDirectory64Record>) -> (r: Result<(), Error>)
        requires
            old(self).wf(),
        ensures
            final(self).wf(),
            final(self).size == old(self).size,
            r is Ok ==> resolved_directory(&eocd, &z, old(self).size) is Ok && final(self).state is ReadCentralDirectory
                && final(self).measure() < 2 * (old(self).size + 1) && final(self).buffer@.len() == 0,
            r is Ok ==> (final(self).state matches ReaderState::ReadCentralDirectory { eocd: e, zip64: zz, .. } && e == eocd && zz == z),
            r matches Err(e) ==> resolved_directory(&eocd, &z, old(self).size) matches Err(f) && e == Error::Format(f),
            r matches Err(Error::Format(FormatError::ImpossibleNumberOfFiles { claimed_records_count: c, zip_size: zs }))
                ==> zs == old(self).size && exists|off: u64| off < zs && !crate::archive::records_fit(c, off, zs),
    {
        match resolve_directory(&eocd, &z, self.size) {
            Err(f) => {
                proof {
                    let off = crate::archive::resolved_offset(&eocd, &z);
                    if f is ImpossibleNumberOfFiles {
                        assert(off < self.size && !crate::archive::records_fit(f->claimed_records_count, off, self.size));
                        assert(f->zip_size == self.size);
                        assert(exists|o: u64| o < self.size && !crate::archive::records_fit(f->claimed_records_count, o, self.size));
                    }
                }
                Err(Error::Format(f))
            },
            Ok(dir) => {
                let room = self.size - dir.directory_offset;
                let needed = if dir.directory_size < room { dir.directory_size } else { room };
                let start = dir.directory_offset;
                self.enter(ReaderState::ReadCentralDirectory { eocd, zip64: z, dir }, start, needed);
                Ok(())
            },
        }
    }

    /// Advances the parse by one step.
    pub fn process(&mut self) -> (r: Result<ArchiveReaderResult, Error>)
        requires
            old(self).wf(),
            !old(self).is_done(),
        ensures
            final(self).wf(),
            final(self).size == old(self).size,
            !old(self).has_region() ==> (r matches Ok(ArchiveReaderResult::Continue) && *final(self)
                == *old(self)),
            r matches Ok(ArchiveReaderResult::Continue) && old(self).has_region() ==> final(self).buffer@.len() == 0,
            r matches Ok(ArchiveReaderResult::Continue) ==> !final(self).is_done() && final(self).measure()
                < old(self).measure() + if old(self).has_region() { 0int } else { 1int },
            r matches Ok(ArchiveReaderResult::Done(a)) ==> {
                &&& old(self).state matches ReaderState::ReadCentralDirectory { eocd, zip64, .. }
                &&& a.entries@.len() == resolved_records(&eocd, &zip64)
                &&& entries_of_directory(a.entries@, old(self).buffer@, a.encoding)
                &&& a.size == old(self).size
            },
            old(self).has_region() && old(self).state is ReadEocd ==> ((r matches Err(
                Error::Format(FormatError::DirectoryEndSignatureNotFound),
            )) <==> forall|j: int| !#[trigger] eocd_at(old(self).buffer@, j)),
            !(old(self).state is ReadEocd) ==> !(r matches Err(
                Error::Format(FormatError::DirectoryEndSignatureNotFound),
            )),
            old(self).state is ReadEocd && r is Ok ==> final(self).state is ReadEocd || exists|j: int|
                eocd_at(old(self).buffer@, j),
            old(self).has_region() && old(self).state is ReadCentralDirectory ==> (r is Ok <==> directory_ok(
                old(self).buffer@,
                old(self).state->dir.directory_records as nat,
            )),
            old(self).has_region() && old(self).state is ReadCentralDirectory && r is Ok ==> r matches Ok(ArchiveReaderResult::Done(_)),
            r matches Err(e) ==> e is Format || e is Encoding,
            r matches Err(e) ==> (!(old(self).state is ReadCentralDirectory) ==> (e matches Error::Format(f)
                && !(f is InvalidCentralRecord) && !(f is InvalidExtraField))),
            old(self).has_region() && old(self).state is ReadCentralDirectory ==> ((r matches Err(
                Error::Format(FormatError::InvalidCentralRecord),
            )) <==> !headers_fit(old(self).buffer@, old(self).state->dir.directory_records as nat)),
            !(old(self).state is ReadCentralDirectory) ==> !(r matches Err(
                Error::Format(FormatError::InvalidCentralRecord),
            )),
            old(self).has_region() && old(self).state is ReadEocd64 && !eocd64_valid(old(self).buffer@)
                ==> r matches Err(Error::Format(FormatError::Directory64EndRecordInvalid)),
            r matches Err(Error::Format(FormatError::ImpossibleNumberOfFiles { claimed_records_count: c, zip_size: zs }))
                ==> zs == old(self).size && exists|off: u64| off < zs && !crate::archive::records_fit(c, off, zs),
    {
        if (self.buffer.len() as u64) < self.needed {
            return Ok(ArchiveReaderResult::Continue);
        }
        let mut st = ReaderState::Done;
        std::mem::swap(&mut self.state, &mut st);
        match st {
            ReaderState::ReadEocd => {
                let i = match find_eocd(self.buffer.as_slice()) {
                    Some(i) => i,
                    None => {
                        return Err(Error::Format(FormatError::DirectoryEndSignatureNotFound));
                    },
                };
                let eocd = parse_eocd(self.buffer.as_slice(), i);
                let eocd_offset = self.start + i as u64;
                if eocd_offset >= EOCD64_LOCATOR_SIZE as u64 {
                    let start = eocd_offset - EOCD64_LOCATOR_SIZE as u64;
                    self.enter(ReaderState::ReadEocd64Locator { eocd }, start, EOCD64_LOCATOR_SIZE as u64);
                    Ok(ArchiveReaderResult::Continue)
                } else {
                    match self.enter_directory(eocd, None) {
                        Ok(()) => Ok(ArchiveReaderResult::Continue),
                        Err(e) => Err(e),
                    }
                }
            },
            ReaderState::ReadEocd64Locator { eocd } => {
                match parse_eocd64_locator(self.buffer.as_slice()) {
                    None => {
                        match self.enter_directory(eocd, None) {
                            Ok(()) => Ok(ArchiveReaderResult::Continue),
                            Err(e) => Err(e),
                        }
                    },
                    Some(off) => {
                        if off >= self.size || self.size - off < EOCD64_SIZE as u64 {
                            return Err(Error::Format(FormatError::Directory64EndRecordInvalid));
                        }
                        self.enter(ReaderState::ReadEocd64 { eocd }, off, EOCD64_SIZE as u64);
                        Ok(ArchiveReaderResult::Continue)
                    },
                }
            },
            ReaderState::ReadEocd64 { eocd } => {
                let z = match parse_eocd64(self.buffer.as_slice()) {
                    Some(z) => z,
                    None => {
                        return Err(Error::Format(FormatError::Directory64EndRecordInvalid));
                    },
                };
                match self.enter_directory(eocd, Some(z)) {
                    Ok(()) => Ok(ArchiveReaderResult::Continue),
                    Err(e) => Err(e),
                }
            },
            ReaderState::ReadCentralDirectory { eocd, zip64, dir } => {
                match read_directory(self.buffer.as_slice(), &eocd.comment, dir, self.size) {
                    Ok(archive) => Ok(ArchiveReaderResult::Done(archive)),
                    Err(e) => Err(e),
                }
            },
            ReaderState::Done => vstd::pervasive::unreached(),
        }
    }

}


/// Reads `dir.directory_records` headers from the central directory `buf` and
/// builds the archive.
pub fn read_directory(buf: &[u8], comment: &Vec<u8>, dir: DirectoryEnd, size: u64) -> (r: Result<Archive, Error>)
    ensures
        r matches Ok(a) ==> a.entries@.len() == dir.directory_records && a.size == size
            && entries_of_directory(a.entries@, buf@, a.encoding),
        r matches Err(Error::Format(f)) ==> f is InvalidCentralRecord || f is InvalidExtraField,
        r matches Err(e) ==> e is Format || e is Encoding,
        r matches Err(Error::Format(FormatError::InvalidExtraField)) ==> exists|j: nat, h: CentralDirectoryHeader|
            j < dir.directory_records && #[trigger] central_header_parsed(h, buf@, header_pos(buf@, j))
                && header_extra(&h) is None,
        r is Ok <==> directory_ok(buf@, dir.directory_records as nat),
        (r matches Err(Error::Format(FormatError::InvalidCentralRecord))) <==> !headers_fit(
            buf@,
            dir.directory_records as nat,
        ),
{
    let count = dir.directory_records;
    let mut headers: Vec<CentralDirectoryHeader> = Vec::new();
    let mut pos: usize = 0;
    let mut k: u64 = 0;
    while k < count
        invariant
            headers@.len() == k,
            pos <= buf@.len(),
            k <= count,
            count == dir.directory_records,
            pos == header_pos(buf@, k as nat),
            forall|j: int| 0 <= j < k ==> central_header_parsed(#[trigger] headers@[j], buf@, header_pos(buf@, j as nat)),
            forall|j: nat| j < k ==> header_ok_at(buf@, #[trigger] header_pos(buf@, j)),
        decreases count - k,
    {
        match parse_central_header(buf, pos) {
            HeaderRead::Parsed(h, next) => {
                headers.push(h);
                pos = next;
            },
            _ => {
                assert(!header_ok_at(buf@, header_pos(buf@, k as nat)));
                assert(!headers_fit(buf@, count as nat));
                return Err(Error::Format(FormatError::InvalidCentralRecord));
            },
        }
        k = k + 1;
    }
    assert(headers_fit(buf@, count as nat));
    let encoding = detect_encoding(&headers, comment);
    let mut entries: Vec<Entry> = Vec::new();
    let mut i: usize = 0;
    while i < headers.len()
        invariant
            entries@.len() == i,
            i <= headers@.len(),
            headers_fit(buf@, dir.directory_records as nat),
            headers@.len() == dir.directory_records,
            encoding == detected_encoding(headers@, comment@),
            forall|j: int| 0 <= j < headers@.len() ==> central_header_parsed(#[trigger] headers@[j], buf@, header_pos(buf@, j as nat)),
            forall|j: int| 0 <= j < i ==> header_content_ok(#[trigger] headers@[j]),
            forall|j: int| 0 <= j < i ==> entry_of_header(#[trigger] entries@[j], &headers@[j], encoding),
        decreases headers@.len() - i,
    {
        let e = match build_entry(&headers[i], encoding) {
            Ok(e) => e,
            Err(e) => {
                proof {
                    assert(!header_content_ok(headers@[i as int]));
                    if e is Format {
                        assert(header_extra(&headers@[i as int]) is None);
                    }
                    assert(central_header_parsed(headers@[i as int], buf@, header_pos(buf@, i as nat)));
                }
                return Err(e);
            },
        };
        entries.push(e);
        i = i + 1;
    }
    let comment = match crate::encoding::decode_text(comment.as_slice(), encoding) {
        Some(c) => c,
        None => {
            return Err(Error::Encoding(crate::error::DecodingError::Utf8Error));
        },
    };
    let a = Archive { size: size, encoding, comment, entries };
    proof {
        assert forall|j: nat, h: CentralDirectoryHeader|
            j < dir.directory_records && #[trigger] central_header_parsed(h, buf@, header_pos(buf@, j))
            implies header_content_ok(h) by {
            assert(central_header_parsed(headers@[j as int], buf@, header_pos(buf@, j)));
            lemma_same_content(h, headers@[j as int], buf@, header_pos(buf@, j));
        }
    }
    assert(headers_of_entries(a.entries@, headers@, buf@, a.encoding));
    Ok(a)
}

/// True when the entry of header `h` can be built: its extra fields parse,
/// and its text, when flagged UTF-8, is valid UTF-8.
pub open spec fn header_content_ok(h: CentralDirectoryHeader) -> bool {
    &&& header_extra(&h) is Some
    &&& h.flags & FLAG_UTF8 != 0 ==> valid_utf8(h.name@) && valid_utf8(h.comment@)
}

/// True when the directory `s` holds `count` headers one after the other,
/// and every one of them can be built into an entry.
pub open spec fn directory_ok(s: Seq<u8>, count: nat) -> bool {
    &&& headers_fit(s, count)
    &&& forall|j: nat, h: CentralDirectoryHeader|
        j < count && #[trigger] central_header_parsed(h, s, header_pos(s, j)) ==> header_content_ok(h)
}

proof fn lemma_same_content(a: CentralDirectoryHeader, b: CentralDirectoryHeader, s: Seq<u8>, p: int)
    requires
        central_header_parsed(a, s, p),
        central_header_parsed(b, s, p),
    ensures
        header_content_ok(a) == header_content_ok(b),
{
    assert(a.extra@ == b.extra@);
    assert(header_extra(&a) == header_extra(&b));
}

/// True when a complete central directory header starts at `p` in `s`.
pub open spec fn header_ok_at(s: Seq<u8>, p: int) -> bool {
    &&& p + CENTRAL_HEADER_SIZE <= s.len()
    &&& le32(s, p) == CENTRAL_HEADER_SIGNATURE
    &&& p + central_header_len(s, p) <= s.len()
}

/// True when `s` holds `k` complete central directory headers one after
/// the other from its start.
pub open spec fn headers_fit(s: Seq<u8>, k: nat) -> bool {
    forall|j: nat| j < k ==> header_ok_at(s, #[trigger] header_pos(s, j))
}

/// Offset in `s` of the `k`-th of consecutive central directory headers.
pub open spec fn header_pos(s: Seq<u8>, k: nat) -> int
    decreases k,
{
    if k == 0 {
        0
    } else {
        let p = header_pos(s, (k - 1) as nat);
        p + central_header_len(s, p)
    }
}

/// The headers `hs` stand one after the other from the start of `s`, and
/// each entry of `es` is the one its header describes, text decoded under
/// `enc`.
pub open spec fn headers_of_entries(es: Seq<Entry>, hs: Seq<CentralDirectoryHeader>, s: Seq<u8>, enc: Encoding) -> bool {
    &&& hs.len() == es.len()
    &&& forall|j: int| 0 <= j < hs.len() ==> central_header_parsed(#[trigger] hs[j], s, header_pos(s, j as nat))
    &&& forall|j: int| 0 <= j < hs.len() ==> entry_of_header(#[trigger] es[j], &hs[j], enc)
}

/// `es` are the entries that the central directory `s` describes, in order.
pub open spec fn entries_of_directory(es: Seq<Entry>, s: Seq<u8>, enc: Encoding) -> bool {
    exists|hs: Seq<CentralDirectoryHeader>| headers_of_entries(es, hs, s, enc)
}

/// The archive's encoding: UTF-8 when the archive comment and the names and
/// comments of every header not flagged UTF-8 are valid UTF-8, else code
/// page 437.
pub open spec fn detected_encoding(headers: Seq<CentralDirectoryHeader>, comment: Seq<u8>) -> Encoding {
    if valid_utf8(comment) && forall|i: int|
        0 <= i < headers.len() ==> (#[trigger] headers[i]).flags & FLAG_UTF8 != 0 || (valid_utf8(
            headers[i].name@,
        ) && valid_utf8(headers[i].comment@)) {
        Encoding::Utf8
    } else {
        Encoding::Cp437
    }
}

pub fn detect_encoding(headers: &Vec<CentralDirectoryHeader>, comment: &Vec<u8>) -> (r: Encoding)
    ensures
        r == detected_encoding(headers@, comment@),
{
    if !is_utf8(comment.as_slice()) {
        return Encoding::Cp437;
    }
    let mut i: usize = 0;
    while i < headers.len()
        invariant
            i <= headers@.len(),
            valid_utf8(comment@),
            forall|k: int|
                0 <= k < i ==> (#[trigger] headers@[k]).flags & FLAG_UTF8 != 0 || (valid_utf8(
                    headers@[k].name@,
                ) && valid_utf8(headers@[k].comment@)),
        decreases headers@.len() - i,
    {
        let h = &headers[i];
        if h.flags & FLAG_UTF8 == 0 {
            if !is_utf8(h.name.as_slice()) || !is_utf8(h.comment.as_slice()) {
                return Encoding::Cp437;
            }
        }
        i = i + 1;
    }
    Encoding::Utf8
}

} // verus!
