use vstd::prelude::*;

verus! {

/// `std::io::Error` is carried through the library unopened.
#[verifier::external_type_specification]
#[verifier::external_body]
pub struct ExIoError(std::io::Error);

/// Failure to decode an entry's name or an archive comment.
#[derive(Debug, Clone, Copy, PartialEq, Eq, Structural)]
pub enum DecodingError {
    /// Text flagged as UTF-8 is not valid UTF-8.
    Utf8Error,
}

/// Any zip-related error, from invalid archives to encoding problems.
#[derive(Debug)]
pub enum Error {
    /// Not a valid zip file, or a variant that is unsupported.
    Format(FormatError),
    /// Text could not be decoded under the archive's encoding.
    Encoding(DecodingError),
    /// An I/O error, or input that ended while data was still needed.
    IO(std::io::Error),
    /// Could not read as a zip because size could not be determined.
    UnknownSize,
    /// An entry's compression method is not one this library can read.
    UnsupportedMethod(u16),
    /// An entry's stored data does not decompress to the sizes and checksum
    /// that its headers declare.
    Corrupted(CorruptionError),
}

/// What an entry reader found wrong with an entry's data.
#[derive(Debug, Clone, Copy, PartialEq, Eq, Structural)]
pub enum CorruptionError {
    /// The local file header is missing or truncated.
    InvalidLocalHeader,
    /// The decompressor rejected the data.
    Decompression,
    /// The data produced more or fewer bytes than the declared size.
    SizeMismatch,
    /// The checksum of the produced bytes is not the declared one.
    ChecksumMismatch { expected: u32, actual: u32 },
}

/// Specific zip format errors, mostly due to invalid zip archives.
#[derive(Debug, Clone, Copy, PartialEq, Eq, Structural)]
pub enum FormatError {
    /// The end of central directory record was not found.
    DirectoryEndSignatureNotFound,
    /// A zip64 end of central directory locator was found, but the zip64
    /// end of central directory record it points to could not be parsed.
    Directory64EndRecordInvalid,
    /// The offset found for the central directory points outside the file.
    DirectoryOffsetPointsOutsideFile,
    /// The central directory could not be read for as many records as the
    /// end of central directory record advertises.
    InvalidCentralRecord,
    /// An extra field that is recognized was not decoded correctly.
    InvalidExtraField,
    /// The end of central directory record claims more records than the
    /// space left after the directory offset could hold.
    ImpossibleNumberOfFiles { claimed_records_count: u64, zip_size: u64 },
}

impl From<std::io::Error> for Error {
    fn from(e: std::io::Error) -> (r: Self)
        ensures
            r == Error::IO(e),
    {
        Error::IO(e)
    }
}

impl vstd::std_specs::convert::FromSpecImpl<std::io::Error> for Error {
    open spec fn obeys_from_spec() -> bool {
        true
    }

    open spec fn from_spec(v: std::io::Error) -> Self {
        Error::IO(v)
    }
}

impl From<FormatError> for Error {
    fn from(e: FormatError) -> (r: Self)
        ensures
            r == Error::Format(e),
    {
        Error::Format(e)
    }
}

impl vstd::std_specs::convert::FromSpecImpl<FormatError> for Error {
    open spec fn obeys_from_spec() -> bool {
        true
    }

    open spec fn from_spec(v: FormatError) -> Self {
        Error::Format(v)
    }
}

impl From<DecodingError> for Error {
    fn from(e: DecodingError) -> (r: Self)
        ensures
            r == Error::Encoding(e),
    {
        Error::Encoding(e)
    }
}

impl vstd::std_specs::convert::FromSpecImpl<DecodingError> for Error {
    open spec fn obeys_from_spec() -> bool {
        true
    }

    open spec fn from_spec(v: DecodingError) -> Self {
        Error::Encoding(v)
    }
}

/// The decimal digit for `d` below ten.
pub open spec fn digit_char(d: int) -> char {
    if d == 0 { '0' } else if d == 1 { '1' } else if d == 2 { '2' } else if d == 3 { '3' }
    else if d == 4 { '4' } else if d == 5 { '5' } else if d == 6 { '6' } else if d == 7 { '7' }
    else if d == 8 { '8' } else { '9' }
}

/// The decimal text of `n`.
pub open spec fn decimal(n: nat) -> Seq<char>
    decreases n,
{
    if n < 10 {
        seq![digit_char(n as int)]
    } else {
        decimal(n / 10).push(digit_char((n % 10) as int))
    }
}

/// Appends the decimal text of `n` to `out`.
pub fn push_decimal(out: &mut String, n: u64)
    ensures
        final(out)@ == old(out)@ + decimal(n as nat),
    decreases n,
{
    if n >= 10 {
        push_decimal(out, n / 10);
    }
    let d = n % 10;
    let c = if d == 0 { '0' } else if d == 1 { '1' } else if d == 2 { '2' } else if d == 3 { '3' }
        else if d == 4 { '4' } else if d == 5 { '5' } else if d == 6 { '6' } else if d == 7 { '7' }
        else if d == 8 { '8' } else { '9' };
    let ghost before = out@;
    crate::encoding::push_char(out, c);
    proof {
        if n >= 10 {
            assert(out@ =~= old(out)@ + decimal(n as nat));
        } else {
            assert(out@ =~= old(out)@ + decimal(n as nat));
        }
    }
}

/// Relies on `std::io::Error`'s `Display`: the error's own message.
#[verifier::external_body]
fn io_error_text(e: &std::io::Error) -> String {
    e.to_string()
}

/// The text of a format error, as its pretty-printed debug form.
pub open spec fn format_error_text(f: FormatError) -> Seq<char> {
    match f {
        FormatError::DirectoryEndSignatureNotFound => "DirectoryEndSignatureNotFound"@,
        FormatError::Directory64EndRecordInvalid => "Directory64EndRecordInvalid"@,
        FormatError::DirectoryOffsetPointsOutsideFile => "DirectoryOffsetPointsOutsideFile"@,
        FormatError::InvalidCentralRecord => "InvalidCentralRecord"@,
        FormatError::InvalidExtraField => "InvalidExtraField"@,
        FormatError::ImpossibleNumberOfFiles { claimed_records_count, zip_size } =>
            "ImpossibleNumberOfFiles {\n    claimed_records_count: "@ + decimal(claimed_records_count as nat)
                + ",\n    zip_size: "@ + decimal(zip_size as nat) + ",\n}"@,
    }
}

/// The name of a corruption.
pub open spec fn corruption_text(c: CorruptionError) -> Seq<char> {
    match c {
        CorruptionError::InvalidLocalHeader => "InvalidLocalHeader"@,
        CorruptionError::Decompression => "Decompression"@,
        CorruptionError::SizeMismatch => "SizeMismatch"@,
        CorruptionError::ChecksumMismatch { .. } => "ChecksumMismatch"@,
    }
}

fn push_format_error(out: &mut String, f: FormatError)
    ensures
        final(out)@ == old(out)@ + format_error_text(f),
{
    match f {
        FormatError::DirectoryEndSignatureNotFound => out.append("DirectoryEndSignatureNotFound"),
        FormatError::Directory64EndRecordInvalid => out.append("Directory64EndRecordInvalid"),
        FormatError::DirectoryOffsetPointsOutsideFile => out.append("DirectoryOffsetPointsOutsideFile"),
        FormatError::InvalidCentralRecord => out.append("InvalidCentralRecord"),
        FormatError::InvalidExtraField => out.append("InvalidExtraField"),
        FormatError::ImpossibleNumberOfFiles { claimed_records_count, zip_size } => {
            out.append("ImpossibleNumberOfFiles {\n    claimed_records_count: ");
            push_decimal(out, claimed_records_count);
            out.append(",\n    zip_size: ");
            push_decimal(out, zip_size);
            out.append(",\n}");
        },
    }
    proof {
        assert(out@ =~= old(out)@ + format_error_text(f));
    }
}

impl Error {
    /// A description of the error: `rc-zip: ` and then the variant with
    /// its fields, or the I/O error's own message.
    pub fn describe(&self) -> (r: String)
        ensures
            self matches Error::Format(f) ==> r@ == "rc-zip: "@ + format_error_text(*f),
            self is Encoding ==> r@ == "rc-zip: "@ + "Utf8Error"@,
            self is UnknownSize ==> r@ == "rc-zip: "@ + "file size must be known to open zip archive"@,
            self matches Error::UnsupportedMethod(m) ==> r@ == "rc-zip: "@ + "UnsupportedMethod("@ + decimal(
                m as nat,
            ) + ")"@,
            self matches Error::Corrupted(c) ==> r@ == "rc-zip: "@ + "Corrupted("@ + corruption_text(*c) + ")"@,
            self is IO ==> r@.len() >= 8 && r@.subrange(0, 8) == "rc-zip: "@,
    {
        let mut out = String::from_str("rc-zip: ");
        match self {
            Error::Format(f) => push_format_error(&mut out, *f),
            Error::Encoding(_) => out.append("Utf8Error"),
            Error::IO(e) => {
                let t = io_error_text(e);
                out.append(t.as_str());
            },
            Error::UnknownSize => out.append("file size must be known to open zip archive"),
            Error::UnsupportedMethod(m) => {
                out.append("UnsupportedMethod(");
                push_decimal(&mut out, *m as u64);
                out.append(")");
                assert(out@ =~= "rc-zip: "@ + "UnsupportedMethod("@ + decimal(*m as nat) + ")"@);
            },
            Error::Corrupted(c) => {
                out.append("Corrupted(");
                match c {
                    CorruptionError::InvalidLocalHeader => out.append("InvalidLocalHeader"),
                    CorruptionError::Decompression => out.append("Decompression"),
                    CorruptionError::SizeMismatch => out.append("SizeMismatch"),
                    CorruptionError::ChecksumMismatch { .. } => out.append("ChecksumMismatch"),
                }
                out.append(")");
                assert(out@ =~= "rc-zip: "@ + "Corrupted("@ + corruption_text(*c) + ")"@);
            },
        }
        proof {
            reveal_strlit("rc-zip: ");
            if self is IO {
                assert(out@.subrange(0, 8) =~= "rc-zip: "@);
            }
        }
        out
    }
}

} // verus!
