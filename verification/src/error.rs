//! Error kinds produced while reading a portable-executable image.
use vstd::prelude::*;

verus! {

/// Why a parse step failed.
///
/// `NotFound` and `NotAFile` are never produced by the parser itself; they are
/// provided for callers that check a path before loading the image.
#[derive(Clone, Copy, Debug, PartialEq, Eq, Structural)]
pub enum ParseError {
    /// The input path does not exist.
    NotFound,
    /// The input path is not a regular file.
    NotAFile,
    /// The whole-file read failed, or the file is too short to hold the DOS magic.
    IoFailure,
    /// A bounded read failed at `offset` while decoding a structure.
    DecodeFailure { offset: u64 },
    /// An RVA referenced by a present directory does not map to any section.
    UnresolvableRva { rva: u32 },
    /// A zero-terminated string starting at `offset` has no terminator inside the buffer.
    StringDecodeFailure { offset: u64 },
}

/// True of the error kinds the parser itself can produce.  `NotFound` and
/// `NotAFile` are never among them: they belong to callers that check the
/// input path.
pub open spec fn spec_parser_error(e: ParseError) -> bool {
    ||| e is IoFailure
    ||| e is DecodeFailure
    ||| e is UnresolvableRva
    ||| e is StringDecodeFailure
}

} // verus!
