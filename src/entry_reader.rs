//! Streaming an entry's bytes. Like the archive reader, the entry reader
//! names the offsets it needs and is handed the bytes found there; it gives
//! back the entry's decompressed bytes piece by piece.
use vstd::prelude::*;
use crate::entry::{Entry, Method};
use crate::error::{CorruptionError, Error};
use crate::le::{le16, le32, read_u16, read_u32};
use crate::records::{LOCAL_HEADER_SIGNATURE, LOCAL_HEADER_SIZE};

verus! {

/// `flate2::Decompress`, a raw deflate decoder, is held unopened.
#[verifier::external_type_specification]
#[verifier::external_body]
pub struct ExDecompress(flate2::Decompress);

/// The CRC-32 state after the bytes `b` are added to state `init`.
pub uninterp spec fn crc32_extend(init: u32, b: Seq<u8>) -> u32;

/// Relies on `crc32fast::Hasher`: started from state `init`, updated with
/// `b`, finalized.
#[verifier::external_body]
fn crc32_continue(init: u32, b: &[u8]) -> (r: u32)
    ensures
        r == crc32_extend(init, b@),
{
    let mut h = crc32fast::Hasher::new_with_initial(init);
    h.update(b);
    h.finalize()
}

/// Relies on `flate2::Decompress::new(false)`: a decoder of raw deflate
/// streams, without zlib header.
#[verifier::external_body]
fn new_inflater() -> flate2::Decompress {
    flate2::Decompress::new(false)
}

/// Relies on `flate2::Decompress::decompress_vec` and `total_in`: decodes
/// part of `input` into a fresh buffer of `capacity` bytes reserved. Gives
/// the decoder's count of input bytes taken before and after the call (the
/// call takes no more than `input`), the bytes produced, and whether the
/// stream ended; `None` when the data is not a valid deflate stream.
#[verifier::external_body]
fn inflate_chunk(d: &mut flate2::Decompress, input: &[u8], capacity: usize) -> (r: Option<(u64, u64, Vec<u8>, bool)>)
    ensures
        r matches Some((before, after, _, _)) ==> before <= after && after - before <= input@.len(),
{
    let mut out: Vec<u8> = Vec::with_capacity(capacity);
    let before = d.total_in();
    match d.decompress_vec(input, &mut out, flate2::FlushDecompress::None) {
        Ok(flate2::Status::StreamEnd) => Some((before, d.total_in(), out, true)),
        Ok(_) => Some((before, d.total_in(), out, false)),
        Err(_) => None,
    }
}

/// Room reserved for each piece of decoded output.
pub const INFLATE_CHUNK: usize = 32768;

/// Takes one piece of decoded output into `out`, which may hold at most
/// `room` bytes: an entry may not decode to more than its declared size.
pub fn take_inflated(out: &mut Vec<u8>, chunk: Vec<u8>, room: u64) -> (r: Result<(), CorruptionError>)
    requires
        old(out)@.len() <= room,
    ensures
        r is Err <==> old(out)@.len() + chunk@.len() > room,
        r is Err ==> r == Err::<(), CorruptionError>(CorruptionError::SizeMismatch) && final(out)@ == old(out)@,
        r is Ok ==> final(out)@ == old(out)@ + chunk@,
{
    let mut chunk = chunk;
    if chunk.len() as u64 > room - out.len() as u64 {
        return Err(CorruptionError::SizeMismatch);
    }
    out.append(&mut chunk);
    Ok(())
}

/// Identifier of a compression method.
pub open spec fn method_code(m: Method) -> u16 {
    match m {
        Method::Store => 0,
        Method::Deflate => 8,
        Method::Deflate64 => 9,
        Method::Bzip2 => 12,
        Method::Lzma => 14,
        Method::Zstd => 93,
        Method::Xz => 95,
        Method::Unrecognized(c) => c,
    }
}

impl Method {
    pub fn code(&self) -> (r: u16)
        ensures
            r == method_code(*self),
    {
        match self {
            Method::Store => 0,
            Method::Deflate => 8,
            Method::Deflate64 => 9,
            Method::Bzip2 => 12,
            Method::Lzma => 14,
            Method::Zstd => 93,
            Method::Xz => 95,
            Method::Unrecognized(c) => *c,
        }
    }
}

/// Methods an entry reader can decode.
pub open spec fn method_supported(m: Method) -> bool {
    m is Store || m is Deflate
}

/// Room that the local header may take: its fixed part, a name and an
/// extra field.
pub const LOCAL_HEADER_MAX: u64 = 30 + 65535 + 65535;

/// The fixed part of a local header: the bytes already received, then
/// as many of `data` as it still lacks.
pub open spec fn local_header(received: Seq<u8>, data: Seq<u8>) -> Seq<u8> {
    received + data.subrange(0, LOCAL_HEADER_SIZE - received.len())
}

/// How many stored bytes a Store reader takes from `data`.
pub open spec fn store_take(r: EntryReader, data: Seq<u8>) -> int {
    vstd::math::min(data.len() as int, r.compressed_size - r.consumed)
}

/// What an entry reader waits for.
pub enum EntryReaderState {
    /// The fixed part of the local file header.
    ReadLocalHeader,
    /// The entry's stored data.
    ReadData,
    /// All data has been decoded and checked.
    Done,
}

/// Reads one entry's bytes. Callers loop: while `wants_read` names an
/// offset, they hand `feed` the bytes found there and take what it gives.
pub struct EntryReader {
    pub method: Method,
    pub compressed_size: u64,
    pub uncompressed_size: u64,
    pub expected_crc: u32,
    pub header_offset: u64,
    pub state: EntryReaderState,
    /// The local header bytes received so far.
    pub header: Vec<u8>,
    /// Offset of the entry's stored data, once the local header is read.
    pub data_offset: u64,
    /// Stored bytes taken so far.
    pub consumed: u64,
    /// Bytes produced so far.
    pub produced: u64,
    /// CRC-32 state over the bytes produced so far.
    pub crc: u32,
    /// The stored bytes taken so far.
    pub taken: Ghost<Seq<u8>>,
    /// The bytes produced so far.
    pub output: Ghost<Seq<u8>>,
    pub inflater: Option<flate2::Decompress>,
}

impl EntryReader {
    pub open spec fn wf(&self) -> bool {
        &&& method_supported(self.method)
        &&& self.method is Deflate <==> self.inflater is Some
        &&& self.consumed <= self.compressed_size
        &&& self.produced <= self.uncompressed_size
        &&& self.taken@.len() == self.consumed
        &&& self.output@.len() == self.produced
        &&& self.method is Store ==> self.output@ == self.taken@
        &&& self.header@.len() < LOCAL_HEADER_SIZE
        &&& self.header_offset + LOCAL_HEADER_MAX + self.compressed_size <= u64::MAX
        &&& !(self.state is ReadLocalHeader) ==> self.data_offset + self.compressed_size <= u64::MAX
        &&& self.state is ReadLocalHeader ==> self.consumed == 0 && self.produced == 0 && self.crc == 0
        &&& self.state is ReadData ==> self.consumed < self.compressed_size
        &&& self.state is Done ==> self.consumed == self.compressed_size && self.produced
            == self.uncompressed_size && self.crc == self.expected_crc
    }

    /// For a stored entry, the bytes produced are exactly the stored bytes
    /// taken, at every point of the stream; a stream that has ended has
    /// taken all of them.
    pub proof fn lemma_store_round_trip(&self)
        requires
            self.wf(),
            self.method is Store,
        ensures
            self.output@ == self.taken@,
            self.is_done() ==> self.output@.len() == self.compressed_size,
    {
    }

    /// Once a reader has ended, it has produced as many bytes as the entry
    /// declares, and its checksum over them is the declared one.
    pub proof fn lemma_done_matches_entry(&self)
        requires
            self.wf(),
            self.is_done(),
        ensures
            self.output@.len() == self.uncompressed_size,
            self.crc == self.expected_crc,
    {
    }

    pub open spec fn is_done(&self) -> bool {
        self.state is Done
    }

    /// Opens a reader for `entry`. Fails when its method is not one this
    /// reader decodes, or when its data would lie past the largest offset.
    pub fn new(entry: &Entry) -> (r: Result<EntryReader, Error>)
        ensures
            r matches Ok(er) ==> {
                &&& er.wf()
                &&& er.state is ReadLocalHeader
                &&& er.header@.len() == 0
                &&& er.method == entry.method
                &&& er.compressed_size == entry.compressed_size
                &&& er.uncompressed_size == entry.uncompressed_size
                &&& er.expected_crc == entry.crc32
                &&& er.header_offset == entry.header_offset
                &&& er.crc == 0
            },
            !method_supported(entry.method) <==> r == Err::<EntryReader, Error>(
                Error::UnsupportedMethod(method_code(entry.method)),
            ),
            method_supported(entry.method) && r is Err ==> entry.header_offset as int
                + LOCAL_HEADER_MAX + entry.compressed_size > u64::MAX,
    {
        let inflater = match entry.method {
            Method::Store => None,
            Method::Deflate => Some(new_inflater()),
            _ => {
                return Err(Error::UnsupportedMethod(entry.method.code()));
            },
        };
        if entry.header_offset > u64::MAX - LOCAL_HEADER_MAX || entry.compressed_size > u64::MAX
            - LOCAL_HEADER_MAX - entry.header_offset {
            return Err(Error::Corrupted(CorruptionError::InvalidLocalHeader));
        }
        Ok(EntryReader {
            method: entry.method,
            compressed_size: entry.compressed_size,
            uncompressed_size: entry.uncompressed_size,
            expected_crc: entry.crc32,
            header_offset: entry.header_offset,
            state: EntryReaderState::ReadLocalHeader,
            header: Vec::new(),
            data_offset: 0,
            consumed: 0,
            produced: 0,
            crc: 0,
            taken: Ghost(Seq::empty()),
            output: Ghost(Seq::empty()),
            inflater,
        })
    }

    /// The offset to read from next, if the reader waits for bytes.
    pub fn wants_read(&self) -> (r: Option<u64>)
        requires
            self.wf(),
        ensures
            self.state is ReadLocalHeader ==> r == Some((self.header_offset + self.header@.len()) as u64),
            self.state is ReadData ==> r == Some((self.data_offset + self.consumed) as u64),
            self.state is Done ==> r is None,
    {
        match self.state {
            EntryReaderState::ReadLocalHeader => Some(self.header_offset + self.header.len() as u64),
            EntryReaderState::ReadData => Some(self.data_offset + self.consumed),
            EntryReaderState::Done => None,
        }
    }

    /// Takes the stored bytes in `data` for a deflate entry; gives the bytes
    /// produced and how many stored bytes were taken.
    fn inflate_data(&mut self, data: &[u8]) -> (r: Result<(Vec<u8>, usize), Error>)
        requires
            old(self).wf(),
            old(self).method is Deflate,
        ensures
            final(self).inflater is Some,
            final(self).method == old(self).method,
            r matches Ok((out, taken)) ==> taken <= data@.len() && old(self).produced + out@.len()
                <= old(self).uncompressed_size,
            r matches Err(e) ==> e is Corrupted,
            *final(self) == (EntryReader { inflater: final(self).inflater, ..*old(self) }),
    {
        let mut inflater = self.inflater.take().unwrap();
        let ghost budget = self.uncompressed_size - self.produced;
        let mut out: Vec<u8> = Vec::new();
        let mut pos: usize = 0;
        let n = data.len();
        let mut failure: Option<Error> = None;
        while pos < n
            invariant
                pos <= n,
                n == data@.len(),
                out@.len() <= budget,
                budget == self.uncompressed_size - self.produced,
                failure matches Some(e) ==> e is Corrupted,
            decreases (n - pos) + (budget - out@.len()),
        {
            match inflate_chunk(&mut inflater, &data[pos..n], INFLATE_CHUNK) {
                None => {
                    failure = Some(Error::Corrupted(CorruptionError::Decompression));
                    break;
                },
                Some((before, after, chunk, ended)) => {
                    let taken = (after - before) as usize;
                    let progressed = taken > 0 || chunk.len() > 0;
                    match take_inflated(&mut out, chunk, self.uncompressed_size - self.produced) {
                        Ok(()) => {},
                        Err(c) => {
                            failure = Some(Error::Corrupted(c));
                            break;
                        },
                    }
                    pos = pos + taken;
                    if ended || !progressed {
                        break;
                    }
                },
            }
        }
        self.inflater = Some(inflater);
        match failure {
            Some(e) => Err(e),
            None => Ok((out, pos)),
        }
    }

    /// Drains what the deflate decoder still holds once every stored byte
    /// has been taken.
    fn drain_inflater(&mut self, out: &mut Vec<u8>) -> (r: Result<(), Error>)
        requires
            old(self).method is Deflate,
            old(self).inflater is Some,
            old(self).produced + old(out)@.len() <= old(self).uncompressed_size,
        ensures
            final(self).inflater is Some,
            *final(self) == (EntryReader { inflater: final(self).inflater, ..*old(self) }),
            r is Ok ==> final(self).produced + final(out)@.len() <= final(self).uncompressed_size,
            final(out)@.len() >= old(out)@.len(),
            r matches Err(e) ==> e == Error::Corrupted(CorruptionError::Decompression) || e
                == Error::Corrupted(CorruptionError::SizeMismatch),
    {
        let mut inflater = self.inflater.take().unwrap();
        let empty: Vec<u8> = Vec::new();
        loop
            invariant
                self.produced + out@.len() <= self.uncompressed_size,
                out@.len() >= old(out)@.len(),
                self.inflater is None,
                *self == (EntryReader { inflater: None, ..*old(self) }),
            decreases self.uncompressed_size - self.produced - out@.len(),
        {
            match inflate_chunk(&mut inflater, empty.as_slice(), INFLATE_CHUNK) {
                None => {
                    self.inflater = Some(inflater);
                    return Err(Error::Corrupted(CorruptionError::Decompression));
                },
                Some((_, _, chunk, ended)) => {
                    let progressed = chunk.len() > 0;
                    match take_inflated(out, chunk, self.uncompressed_size - self.produced) {
                        Ok(()) => {},
                        Err(c) => {
                            self.inflater = Some(inflater);
                            return Err(Error::Corrupted(c));
                        },
                    }
                    if ended || !progressed {
                        break;
                    }
                },
            }
        }
        self.inflater = Some(inflater);
        Ok(())
    }

    /// Takes bytes found at the offset that `wants_read` named, and gives
    /// the entry's bytes that they decode to. An empty `data` means the
    /// input ended early. Once every stored byte is taken, the size and
    /// checksum of everything produced are checked against the entry's.
    pub fn feed(&mut self, data: &[u8]) -> (r: Result<Vec<u8>, Error>)
        requires
            old(self).wf(),
            !old(self).is_done(),
        ensures
            r is Ok ==> final(self).wf(),
            data@.len() == 0 ==> r is Err,
            r matches Ok(out) ==> final(self).output@ == old(self).output@ + out@ && final(self).crc
                == if out@.len() > 0 { crc32_extend(old(self).crc, out@) } else { old(self).crc },
            r matches Ok(out) ==> (old(self).state is ReadData && old(self).method is Store ==> out@
                == data@.subrange(0, vstd::math::min(data@.len() as int, old(self).compressed_size - old(self).consumed))),
            r matches Ok(out) ==> (old(self).state is ReadLocalHeader && !final(self).is_done() ==> out@.len() == 0),
            old(self).state is ReadLocalHeader && data@.len() > 0 && old(self).header@.len() + data@.len()
                < LOCAL_HEADER_SIZE ==> r is Ok && final(self).state is ReadLocalHeader && final(self).header@
                == old(self).header@ + data@,
            old(self).state is ReadLocalHeader && old(self).header@.len() + data@.len() >= LOCAL_HEADER_SIZE
                ==> ((r matches Err(Error::Corrupted(CorruptionError::InvalidLocalHeader))) <==> le32(
                local_header(old(self).header@, data@),
                0,
            ) != LOCAL_HEADER_SIGNATURE),
            old(self).state is ReadLocalHeader && old(self).header@.len() + data@.len() >= LOCAL_HEADER_SIZE
                && le32(local_header(old(self).header@, data@), 0) == LOCAL_HEADER_SIGNATURE
                && old(self).compressed_size > 0 ==> r is Ok && final(self).state is ReadData
                && final(self).data_offset == old(self).header_offset + LOCAL_HEADER_SIZE + le16(
                local_header(old(self).header@, data@),
                26,
            ) + le16(local_header(old(self).header@, data@), 28),
            old(self).state is ReadLocalHeader && old(self).header@.len() + data@.len() >= LOCAL_HEADER_SIZE
                && le32(local_header(old(self).header@, data@), 0) == LOCAL_HEADER_SIGNATURE
                && old(self).compressed_size == 0 && old(self).method is Store ==> (r is Ok <==> (
                old(self).uncompressed_size == 0 && old(self).expected_crc == 0)) && (r is Ok ==> final(self).is_done()),
            old(self).state is ReadData && old(self).method is Store && data@.len() > 0 ==> ({
                let take = store_take(*old(self), data@);
                &&& (r matches Err(Error::Corrupted(CorruptionError::SizeMismatch))) <== take
                    > old(self).uncompressed_size - old(self).produced
                &&& take <= old(self).uncompressed_size - old(self).produced && old(self).consumed + take
                    < old(self).compressed_size ==> r is Ok && !final(self).is_done()
                &&& take <= old(self).uncompressed_size - old(self).produced && old(self).consumed + take
                    == old(self).compressed_size ==> (r is Ok <==> (old(self).produced + take
                    == old(self).uncompressed_size && crc32_extend(old(self).crc, data@.subrange(0, take))
                    == old(self).expected_crc)) && (r is Ok ==> final(self).is_done())
            }),
            old(self).state is ReadData && old(self).method is Deflate && data@.len() > 0 ==> (r matches Err(e)
                ==> e is Corrupted),
            old(self).state is ReadData && r is Ok ==> final(self).consumed - old(self).consumed <= vstd::math::min(
                data@.len() as int,
                old(self).compressed_size - old(self).consumed,
            ) && final(self).taken@ == old(self).taken@ + data@.subrange(0, final(self).consumed - old(self).consumed),
            r is Ok && final(self).is_done() ==> final(self).consumed == final(self).compressed_size
                && final(self).produced == final(self).uncompressed_size && final(self).crc
                == final(self).expected_crc,
    {
        if data.len() == 0 {
            return Err(Error::IO(crate::read_zip::unexpected_eof()));
        }
        let mut out: Vec<u8> = Vec::new();
        match self.state {
            EntryReaderState::ReadLocalHeader => {
                let missing = LOCAL_HEADER_SIZE - self.header.len();
                let take = if data.len() < missing { data.len() } else { missing };
                let mut i: usize = 0;
                while i < take
                    invariant
                        take <= data@.len(),
                        i <= take,
                        take <= LOCAL_HEADER_SIZE - old(self).header@.len(),
                        self.header@ == old(self).header@ + data@.subrange(0, i as int),
                        *self == (EntryReader { header: self.header, ..*old(self) }),
                    decreases take - i,
                {
                    self.header.push(data[i]);
                    i = i + 1;
                    assert(self.header@ =~= old(self).header@ + data@.subrange(0, i as int));
                }
                if self.header.len() < LOCAL_HEADER_SIZE {
                    return Ok(out);
                }
                if read_u32(self.header.as_slice(), 0) != LOCAL_HEADER_SIGNATURE {
                    return Err(Error::Corrupted(CorruptionError::InvalidLocalHeader));
                }
                let name_len = read_u16(self.header.as_slice(), 26) as u64;
                let extra_len = read_u16(self.header.as_slice(), 28) as u64;
                self.data_offset = self.header_offset + LOCAL_HEADER_SIZE as u64 + name_len + extra_len;
                self.header = Vec::new();
                self.state = EntryReaderState::ReadData;
            },
            EntryReaderState::ReadData => {
                let remaining = self.compressed_size - self.consumed;
                match self.method {
                    Method::Store => {
                        let take: usize = if (data.len() as u64) < remaining { data.len() } else { remaining as usize };
                        if take as u64 > self.uncompressed_size - self.produced {
                            return Err(Error::Corrupted(CorruptionError::SizeMismatch));
                        }
                        out = vstd::slice::slice_to_vec(&data[0..take]);
                        self.consumed = self.consumed + take as u64;
                        self.produced = self.produced + take as u64;
                        self.taken = Ghost(self.taken@ + out@);
                        self.output = Ghost(self.output@ + out@);
                    },
                    _ => {
                        let limit: usize = if (data.len() as u64) < remaining { data.len() } else { remaining as usize };
                        let (o, taken) = self.inflate_data(&data[0..limit])?;
                        if taken == 0 && o.len() == 0 {
                            return Err(Error::Corrupted(CorruptionError::Decompression));
                        }
                        out = o;
                        self.consumed = self.consumed + taken as u64;
                        self.produced = self.produced + out.len() as u64;
                        self.taken = Ghost(self.taken@ + data@.subrange(0, taken as int));
                        self.output = Ghost(self.output@ + out@);
                    },
                }
            },
            EntryReaderState::Done => {
                return vstd::pervasive::unreached();
            },
        }
        if self.consumed == self.compressed_size {
            if matches!(self.method, Method::Deflate) {
                let mut rest: Vec<u8> = Vec::new();
                match self.drain_inflater(&mut rest) {
                    Ok(()) => {},
                    Err(e) => {
                        return Err(e);
                    },
                }
                self.produced = self.produced + rest.len() as u64;
                let ghost prev = self.output@;
                let ghost o = out@;
                self.output = Ghost(self.output@ + rest@);
                out.append(&mut rest);
                assert(prev + rest@ =~= old(self).output@ + o + rest@);
            }
            if out.len() > 0 {
                let c = self.crc;
                self.crc = crc32_continue(c, out.as_slice());
            }
            if self.produced != self.uncompressed_size {
                return Err(Error::Corrupted(CorruptionError::SizeMismatch));
            }
            if self.crc != self.expected_crc {
                return Err(Error::Corrupted(CorruptionError::ChecksumMismatch { expected: self.expected_crc, actual: self.crc }));
            }
            self.state = EntryReaderState::Done;
        } else if out.len() > 0 {
            let c = self.crc;
            self.crc = crc32_continue(c, out.as_slice());
        }
        assert(self.output@ =~= old(self).output@ + out@);
        Ok(out)
    }
}

} // verus!
