//! Error types shared by every decoding stage.

use vstd::prelude::*;

verus! {

/// `prost::DecodeError`, the cause carried by [`Error::PbfParseError`]. Its contents are opaque
/// to the verifier: it is only ever produced by `prost` and handed on.
#[verifier::external_type_specification]
#[verifier::external_body]
pub struct ExDecodeError(prost::DecodeError);

/// `std::io::Error`, the cause carried by [`Error::IoError`] and
/// [`DecompressionError::InternalError`]. Its contents are opaque to the verifier.
#[verifier::external_type_specification]
#[verifier::external_body]
pub struct ExIoError(std::io::Error);

/// `core::str::Utf8Error`, handed out when a string table entry is not valid text. Its contents
/// are opaque to the verifier.
#[verifier::external_type_specification]
#[verifier::external_body]
pub struct ExUtf8Error(core::str::Utf8Error);

/// Possible errors returned by decompressor implementations.
#[derive(Debug)]
pub enum DecompressionError {
    /// The given compression method isn't supported by the decompressor.
    UnsupportedCompression,
    /// An internal error occurred during decompression.
    InternalError(std::io::Error),
}

/// Possible errors returned by the library.
#[derive(Debug)]
pub enum Error {
    /// Returned when malformed message bytes are encountered.
    PbfParseError(prost::DecodeError),
    /// Returned when the input ends in the middle of a frame.
    IoError(std::io::Error),
    /// Returned when a blob header with an invalid size (negative or >=64 KB) is encountered.
    InvalidBlobHeader,
    /// Returned when blob data with an invalid size (negative or >=32 MB) is encountered.
    InvalidBlobData,
    /// Returned when an error has occurred during blob decompression.
    DecompressionError(DecompressionError),
    /// Returned when some assumption in the data is violated (for example, an out of bounds index
    /// is encountered).
    LogicError(String),
}

/// The kind of an [`Error`] without its cause: what contracts say about a failure.
pub enum ErrorKind {
    Parse,
    Io,
    InvalidBlobHeader,
    InvalidBlobData,
    UnsupportedCompression,
    Decompression,
    Logic,
}

impl Error {
    /// The kind of this error.
    pub open spec fn kind(self) -> ErrorKind {
        match self {
            Error::PbfParseError(_) => ErrorKind::Parse,
            Error::IoError(_) => ErrorKind::Io,
            Error::InvalidBlobHeader => ErrorKind::InvalidBlobHeader,
            Error::InvalidBlobData => ErrorKind::InvalidBlobData,
            Error::DecompressionError(DecompressionError::UnsupportedCompression) =>
                ErrorKind::UnsupportedCompression,
            Error::DecompressionError(DecompressionError::InternalError(_)) =>
                ErrorKind::Decompression,
            Error::LogicError(_) => ErrorKind::Logic,
        }
    }
}

/// The error an in-memory input gives when it ends before a read is complete:
/// `std::io::Error::from` applied to `std::io::ErrorKind::UnexpectedEof`.
#[verifier::external_body]
pub(crate) fn unexpected_eof() -> std::io::Error {
    std::io::Error::from(std::io::ErrorKind::UnexpectedEof)
}

} // verus!
