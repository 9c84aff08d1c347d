//! Reading ZIP archives: locating and validating the archive's metadata,
//! classifying its entries, streaming an entry's bytes, and deciding where
//! extracted entries may be written.
//!
//! No part of this library performs I/O. The archive parser and the entry
//! reader name the offsets they need and are handed the bytes found there,
//! so the same code serves blocking and non-blocking callers.

pub mod error;
pub mod le;
pub mod records;
pub mod extra;
pub mod encoding;
pub mod entry;
pub mod archive;
pub mod reader;
pub mod read_zip;
pub mod entry_reader;
pub mod extract;
