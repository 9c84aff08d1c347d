//! The entries of an archive and their classification.
use vstd::prelude::*;

verus! {

/// Compression method of an entry. Unknown methods are kept as their
/// identifier; they fail only when the entry is read.
#[derive(Debug, Clone, Copy, PartialEq, Eq, Structural)]
pub enum Method {
    Store,
    Deflate,
    Deflate64,
    Bzip2,
    Lzma,
    Zstd,
    Xz,
    Unrecognized(u16),
}

pub open spec fn method_spec(m: u16) -> Method {
    if m == 0 {
        Method::Store
    } else if m == 8 {
        Method::Deflate
    } else if m == 9 {
        Method::Deflate64
    } else if m == 12 {
        Method::Bzip2
    } else if m == 14 {
        Method::Lzma
    } else if m == 93 {
        Method::Zstd
    } else if m == 95 {
        Method::Xz
    } else {
        Method::Unrecognized(m)
    }
}

impl Method {
    pub fn from_u16(m: u16) -> (r: Method)
        ensures
            r == method_spec(m),
    {
        if m == 0 {
            Method::Store
        } else if m == 8 {
            Method::Deflate
        } else if m == 9 {
            Method::Deflate64
        } else if m == 12 {
            Method::Bzip2
        } else if m == 14 {
            Method::Lzma
        } else if m == 93 {
            Method::Zstd
        } else if m == 95 {
            Method::Xz
        } else {
            Method::Unrecognized(m)
        }
    }
}

/// A "version made by" or "version needed" field: the high byte names the
/// host system, the low byte the version of the format.
#[derive(Debug, Clone, Copy, PartialEq, Eq, Hash, Structural)]
pub struct Version {
    pub raw: u16,
}

pub const HOST_MSDOS: u16 = 0;
pub const HOST_UNIX: u16 = 3;
pub const HOST_OSX: u16 = 19;

impl Version {
    pub fn host(&self) -> (r: u16)
        ensures
            r == self.raw / 256,
    {
        self.raw / 256
    }

    pub fn version(&self) -> (r: u16)
        ensures
            r == self.raw % 256,
    {
        self.raw % 256
    }
}

/// An MS-DOS date and time, as stored.
#[derive(Debug, Clone, Copy, PartialEq, Eq, Structural)]
pub struct DosDateTime {
    pub date: u16,
    pub time: u16,
}

impl DosDateTime {
    /// Year, month, day, hour, minute and second, as the MS-DOS fields pack
    /// them: the date holds years since 1980, month and day; the time holds
    /// hours, minutes and seconds halved.
    pub fn components(&self) -> (r: (u16, u16, u16, u16, u16, u16))
        ensures
            r.0 == 1980 + self.date / 512,
            r.1 == (self.date / 32) % 16,
            r.2 == self.date % 32,
            r.3 == self.time / 2048,
            r.4 == (self.time / 32) % 64,
            r.5 == (self.time % 32) * 2,
    {
        (1980 + self.date / 512, (self.date / 32) % 16, self.date % 32, self.time / 2048, (self.time / 32) % 64, (self.time % 32) * 2)
    }
}

/// File type bits of a Unix mode.
pub const S_IFMT: u32 = 0o170000;
pub const S_IFDIR: u32 = 0o040000;
pub const S_IFREG: u32 = 0o100000;
pub const S_IFLNK: u32 = 0o120000;
/// MS-DOS attribute bits.
pub const DOS_READ_ONLY: u32 = 0x01;
pub const DOS_DIRECTORY: u32 = 0x10;

/// The Unix mode of an entry: from the high half of the external attributes
/// when a Unix host made it, else from its MS-DOS attributes; a name that
/// ends in `/` makes it a directory whatever the attributes say.
pub open spec fn mode_spec(creator: u16, attrs: u32, raw_name: Seq<u8>) -> u32 {
    let host = creator / 256;
    let base: u32 = if host == HOST_UNIX || host == HOST_OSX {
        attrs >> 16u32
    } else if attrs & DOS_DIRECTORY != 0 {
        S_IFDIR | 0o755u32
    } else if attrs & DOS_READ_ONLY != 0 {
        S_IFREG | 0o444u32
    } else {
        S_IFREG | 0o644u32
    };
    if raw_name.len() > 0 && raw_name.last() == 0x2Fu8 {
        (base & !S_IFMT) | S_IFDIR
    } else {
        base
    }
}

pub fn compute_mode(creator: u16, attrs: u32, raw_name: &[u8]) -> (r: u32)
    ensures
        r == mode_spec(creator, attrs, raw_name@),
{
    let host = creator / 256;
    let base: u32 = if host == HOST_UNIX || host == HOST_OSX {
        attrs >> 16u32
    } else if attrs & DOS_DIRECTORY != 0 {
        S_IFDIR | 0o755u32
    } else if attrs & DOS_READ_ONLY != 0 {
        S_IFREG | 0o444u32
    } else {
        S_IFREG | 0o644u32
    };
    let n = raw_name.len();
    if n > 0 && raw_name[n - 1] == 0x2Fu8 {
        (base & !S_IFMT) | S_IFDIR
    } else {
        base
    }
}

/// What an entry holds.
#[derive(Debug, Clone, Copy, PartialEq, Eq, Structural)]
pub enum EntryContents {
    Directory,
    File,
    Symlink,
}

/// The classification of a mode: by its file type bits.
pub open spec fn contents_of(mode: u32) -> EntryContents {
    if mode & S_IFMT == S_IFLNK {
        EntryContents::Symlink
    } else if mode & S_IFMT == S_IFDIR {
        EntryContents::Directory
    } else {
        EntryContents::File
    }
}

/// One record of the central directory, with zip64 values applied and its
/// text decoded.
#[derive(Debug, Clone)]
pub struct Entry {
    pub name: String,
    pub comment: String,
    pub method: Method,
    pub crc32: u32,
    pub compressed_size: u64,
    pub uncompressed_size: u64,
    pub header_offset: u64,
    pub modified: DosDateTime,
    /// Unix times in seconds, from the extended timestamp extra field.
    pub modified_unix: Option<i32>,
    pub accessed: Option<i32>,
    pub created: Option<i32>,
    pub uid: Option<u32>,
    pub gid: Option<u32>,
    pub creator_version: Version,
    pub reader_version: Version,
    pub flags: u16,
    pub external_attrs: u32,
    /// Unix mode, derived from the attributes and the raw name.
    pub mode: u32,
}

impl Entry {
    /// Classifies the entry from its mode, afresh at each call.
    pub fn contents(&self) -> (r: EntryContents)
        ensures
            r == contents_of(self.mode),
    {
        let t = self.mode & S_IFMT;
        if t == S_IFLNK {
            EntryContents::Symlink
        } else if t == S_IFDIR {
            EntryContents::Directory
        } else {
            EntryContents::File
        }
    }

    pub fn name(&self) -> (r: &str)
        ensures
            r@ == self.name@,
    {
        self.name.as_str()
    }

    pub fn method(&self) -> (r: Method)
        ensures
            r == self.method,
    {
        self.method
    }
}

} // verus!
