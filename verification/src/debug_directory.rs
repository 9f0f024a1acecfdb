//! One 28-byte entry of the debug directory.
use vstd::prelude::*;

use crate::error::ParseError;
use crate::reader::{get_u16, get_u32, le_u16_at, le_u32_at, span_fits};

verus! {

/// The byte length of one debug-directory entry.
pub const BYTES_OF_DEBUG_DIRECTORY: u32 = 28;

/// The debug type of CodeView records.
pub const IMAGE_DEBUG_TYPE_CODEVIEW: u32 = 2;

/// One fixed-size debug-directory record.
#[derive(Clone, Copy, Debug)]
pub struct DebugDirectory {
    pub characteristics: u32,
    pub time_date_stamp: u32,
    pub major_version: u16,
    pub minor_version: u16,
    pub type_code: u32,
    pub size_of_data: u32,
    pub address_of_raw_data: u32,
    pub pointer_to_raw_data: u32,
}

/// The debug-directory record stored at `off .. off + 28`.
pub open spec fn spec_debug_directory(b: Seq<u8>, off: int) -> DebugDirectory {
    DebugDirectory {
        characteristics: le_u32_at(b, off),
        time_date_stamp: le_u32_at(b, off + 4),
        major_version: le_u16_at(b, off + 8),
        minor_version: le_u16_at(b, off + 10),
        type_code: le_u32_at(b, off + 12),
        size_of_data: le_u32_at(b, off + 16),
        address_of_raw_data: le_u32_at(b, off + 20),
        pointer_to_raw_data: le_u32_at(b, off + 24),
    }
}

impl DebugDirectory {
    /// Decodes the 28-byte record at the cursor and advances the cursor
    /// past it.
    pub fn parse(buffer: &[u8], offset: &mut usize) -> (r: Result<DebugDirectory, ParseError>)
        ensures
            *old(offset) + 28 > buffer@.len() ==> r == Err::<DebugDirectory, ParseError>(
                ParseError::DecodeFailure { offset: *old(offset) as u64 },
            ),
            *old(offset) + 28 <= buffer@.len() ==> r == Ok::<DebugDirectory, ParseError>(
                spec_debug_directory(buffer@, *old(offset) as int),
            ) && *final(offset) == *old(offset) + 28,
    {
        let off = *offset;
        if !span_fits(buffer, off, 28) {
            return Err(ParseError::DecodeFailure { offset: off as u64 });
        }
        let record = DebugDirectory {
            characteristics: get_u32(buffer, off),
            time_date_stamp: get_u32(buffer, off + 4),
            major_version: get_u16(buffer, off + 8),
            minor_version: get_u16(buffer, off + 10),
            type_code: get_u32(buffer, off + 12),
            size_of_data: get_u32(buffer, off + 16),
            address_of_raw_data: get_u32(buffer, off + 20),
            pointer_to_raw_data: get_u32(buffer, off + 24),
        };
        *offset = off + 28;
        Ok(record)
    }

    /// The RVA of the referenced debug data.
    pub fn address_of_raw_data(&self) -> (r: u32)
        ensures
            r == self.address_of_raw_data,
    {
        self.address_of_raw_data
    }

    /// Reserved flag word.
    pub fn characteristics(&self) -> (r: u32)
        ensures
            r == self.characteristics,
    {
        self.characteristics
    }

    /// The format major version.
    pub fn major_version(&self) -> (r: u16)
        ensures
            r == self.major_version,
    {
        self.major_version
    }

    /// The format minor version.
    pub fn minor_version(&self) -> (r: u16)
        ensures
            r == self.minor_version,
    {
        self.minor_version
    }

    /// The file offset of the referenced debug data.
    pub fn pointer_to_raw_data(&self) -> (r: u32)
        ensures
            r == self.pointer_to_raw_data,
    {
        self.pointer_to_raw_data
    }

    /// The byte size of the referenced debug data.
    pub fn size_of_data(&self) -> (r: u32)
        ensures
            r == self.size_of_data,
    {
        self.size_of_data
    }

    /// The record timestamp.
    pub fn time_date_stamp(&self) -> (r: u32)
        ensures
            r == self.time_date_stamp,
    {
        self.time_date_stamp
    }

    /// The debug data format; `IMAGE_DEBUG_TYPE_CODEVIEW` marks CodeView.
    pub fn type_code(&self) -> (r: u32)
        ensures
            r == self.type_code,
    {
        self.type_code
    }
}

} // verus!
