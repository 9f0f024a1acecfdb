//! The DOS header: the `MZ` magic and the file offset of the NT headers.
use vstd::prelude::*;

use crate::error::ParseError;
use crate::reader::{get_i32, get_u16, le_i32_at, le_u16_at, span_fits};

verus! {

/// The two facts the parser needs from the DOS header.
#[derive(Clone, Copy, Debug)]
pub struct DosHeader {
    pub addr_of_nt_header: i32,
    pub is_windows_executable: bool,
}

impl DosHeader {
    /// Decodes the DOS header at the start of `buffer`.
    ///
    /// A buffer too short for the magic fails as an I/O failure.  A buffer
    /// whose first two bytes are not `MZ` parses successfully as a
    /// non-Windows executable.  Otherwise the NT-header offset is read from
    /// position `0x3C`.
    pub fn parse(buffer: &[u8]) -> (r: Result<DosHeader, ParseError>)
        ensures
            buffer@.len() < 2 ==> r == Err::<DosHeader, ParseError>(ParseError::IoFailure),
            buffer@.len() >= 2 && le_u16_at(buffer@, 0) != 0x5A4D ==> r == Ok::<
                DosHeader,
                ParseError,
            >(DosHeader { addr_of_nt_header: 0, is_windows_executable: false }),
            buffer@.len() >= 2 && le_u16_at(buffer@, 0) == 0x5A4D && buffer@.len() < 0x40 ==> r
                == Err::<DosHeader, ParseError>(ParseError::DecodeFailure { offset: 0x3C }),
            buffer@.len() >= 0x40 && le_u16_at(buffer@, 0) == 0x5A4D ==> r == Ok::<
                DosHeader,
                ParseError,
            >(
                DosHeader {
                    addr_of_nt_header: le_i32_at(buffer@, 0x3C),
                    is_windows_executable: true,
                },
            ),
    {
        if !span_fits(buffer, 0, 2) {
            return Err(ParseError::IoFailure);
        }
        let signature = get_u16(buffer, 0);
        if signature != 0x5A4D {
            return Ok(DosHeader { addr_of_nt_header: 0, is_windows_executable: false });
        }
        if !span_fits(buffer, 0x3C, 4) {
            return Err(ParseError::DecodeFailure { offset: 0x3C });
        }
        let addr_of_nt_header = get_i32(buffer, 0x3C);
        Ok(DosHeader { addr_of_nt_header, is_windows_executable: true })
    }

    /// The file offset of the NT headers, as stored at `0x3C`.
    pub fn addr_of_nt_header(&self) -> (r: i32)
        ensures
            r == self.addr_of_nt_header,
    {
        self.addr_of_nt_header
    }

    /// True when the image begins with the `MZ` magic.
    pub fn is_windows_executable(&self) -> (r: bool)
        ensures
            r == self.is_windows_executable,
    {
        self.is_windows_executable
    }
}

} // verus!
