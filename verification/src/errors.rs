//! The errors that loading and decoding report.

use vstd::prelude::*;
use vstd::string::StringExecFns;

verus! {

/// Why a read from a byte buffer could not be completed.
#[derive(Debug, Clone, Copy, PartialEq, Eq)]
pub enum IoError {
    /// The buffer ended before the requested bytes.
    UnexpectedEof,
    /// The compressed part of a container could not be expanded.
    Inflate,
}

/// Why a container, or a part of one, could not be read.
#[derive(Debug, Clone, Copy, PartialEq, Eq)]
pub enum Error {
    Io(IoError),
    InvalidMagic,
    InvalidSize,
    InvalidOffset,
    InvalidIndex,
    OffsetOverflow,
    SizeOverflow,
    Other(&'static str),
}

/// The error of a read that runs past the end of its buffer.
pub open spec fn eof() -> Error {
    Error::Io(IoError::UnexpectedEof)
}

impl IoError {
    /// The text that describes this failure.
    pub open spec fn spec_message(self) -> Seq<char> {
        match self {
            IoError::UnexpectedEof => "failed to fill whole buffer"@,
            IoError::Inflate => "corrupt deflate stream"@,
        }
    }

    pub fn message(&self) -> (s: &'static str)
        ensures
            s@ == self.spec_message(),
    {
        match self {
            IoError::UnexpectedEof => "failed to fill whole buffer",
            IoError::Inflate => "corrupt deflate stream",
        }
    }
}

impl Error {
    /// The text that describes this error.
    pub open spec fn spec_message(self) -> Seq<char> {
        match self {
            Error::Io(inner) => inner.spec_message(),
            Error::InvalidMagic => "Invalid magic header"@,
            Error::InvalidSize => "Invalid size"@,
            Error::InvalidOffset => "Invalid offset"@,
            Error::InvalidIndex => "Invalid index"@,
            Error::OffsetOverflow => "Offset overflow"@,
            Error::SizeOverflow => "Size overflow"@,
            Error::Other(msg) => msg@,
        }
    }

    /// Renders the error as text.
    pub fn message(&self) -> (s: String)
        ensures
            s@ == self.spec_message(),
    {
        let text: &str = match self {
            Error::Io(inner) => inner.message(),
            Error::InvalidMagic => "Invalid magic header",
            Error::InvalidSize => "Invalid size",
            Error::InvalidOffset => "Invalid offset",
            Error::InvalidIndex => "Invalid index",
            Error::OffsetOverflow => "Offset overflow",
            Error::SizeOverflow => "Size overflow",
            Error::Other(msg) => msg,
        };
        String::from_str(text)
    }
}

} // verus!
