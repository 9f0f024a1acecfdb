//! The COFF file header, read right after the `PE\0\0` signature.
use vstd::prelude::*;

use crate::dos_header::DosHeader;
use crate::error::ParseError;
use crate::reader::{get_u16, get_u32, le_u16_at, le_u32_at, span_fits};

verus! {

/// The 20-byte COFF file header.
#[derive(Clone, Copy, Debug)]
pub struct FileHeader {
    pub machine: u16,
    pub number_of_sections: u16,
    pub time_date_stamps: u32,
    pub pointer_to_symbol_table: u32,
    pub number_of_symbols: u32,
    pub size_of_optional_header: u16,
    pub characteristics: u16,
}

/// The COFF header whose fields are stored at `off .. off + 20`.
pub open spec fn spec_file_header(b: Seq<u8>, off: int) -> FileHeader {
    FileHeader {
        machine: le_u16_at(b, off),
        number_of_sections: le_u16_at(b, off + 2),
        time_date_stamps: le_u32_at(b, off + 4),
        pointer_to_symbol_table: le_u32_at(b, off + 8),
        number_of_symbols: le_u32_at(b, off + 12),
        size_of_optional_header: le_u16_at(b, off + 16),
        characteristics: le_u16_at(b, off + 18),
    }
}

/// The all-zero COFF header recorded when the `PE\0\0` signature is absent.
pub open spec fn spec_file_header_zero() -> FileHeader {
    FileHeader {
        machine: 0,
        number_of_sections: 0,
        time_date_stamps: 0,
        pointer_to_symbol_table: 0,
        number_of_symbols: 0,
        size_of_optional_header: 0,
        characteristics: 0,
    }
}

impl FileHeader {
    /// Seeks to the NT-header offset recorded in the DOS header, checks the
    /// `PE\0\0` signature, and decodes the COFF header after it.  A wrong
    /// signature yields the all-zero header, whose zero machine marks the
    /// image as not a portable executable.  On success the cursor is left
    /// after the COFF header.
    pub fn parse(buffer: &[u8], dos_header: &DosHeader, offset: &mut usize) -> (r: Result<
        FileHeader,
        ParseError,
    >)
        ensures
            dos_header.addr_of_nt_header < 0 ==> r == Err::<FileHeader, ParseError>(
                ParseError::DecodeFailure { offset: 0 },
            ),
            dos_header.addr_of_nt_header >= 0 ==> {
                let a = dos_header.addr_of_nt_header as int;
                &&& a + 4 > buffer@.len() ==> r == Err::<FileHeader, ParseError>(
                    ParseError::DecodeFailure { offset: a as u64 },
                )
                &&& a + 4 <= buffer@.len() && le_u32_at(buffer@, a) != 0x0000_4550 ==> r == Ok::<
                    FileHeader,
                    ParseError,
                >(spec_file_header_zero()) && *final(offset) == a + 4
                &&& a + 4 <= buffer@.len() && le_u32_at(buffer@, a) == 0x0000_4550 && a + 24
                    > buffer@.len() ==> r == Err::<FileHeader, ParseError>(
                    ParseError::DecodeFailure { offset: (a + 4) as u64 },
                )
                &&& a + 24 <= buffer@.len() && le_u32_at(buffer@, a) == 0x0000_4550 ==> r == Ok::<
                    FileHeader,
                    ParseError,
                >(spec_file_header(buffer@, a + 4)) && *final(offset) == a + 24
            },
    {
        let addr = dos_header.addr_of_nt_header();
        if addr < 0 {
            return Err(ParseError::DecodeFailure { offset: 0 });
        }
        let nt = addr as usize;
        if !span_fits(buffer, nt, 4) {
            return Err(ParseError::DecodeFailure { offset: nt as u64 });
        }
        let signature = get_u32(buffer, nt);
        if signature != 0x0000_4550 {
            *offset = nt + 4;
            return Ok(
                FileHeader {
                    machine: 0,
                    number_of_sections: 0,
                    time_date_stamps: 0,
                    pointer_to_symbol_table: 0,
                    number_of_symbols: 0,
                    size_of_optional_header: 0,
                    characteristics: 0,
                },
            );
        }
        if !span_fits(buffer, nt, 24) {
            return Err(ParseError::DecodeFailure { offset: (nt + 4) as u64 });
        }
        let file_header = FileHeader {
            machine: get_u16(buffer, nt + 4),
            number_of_sections: get_u16(buffer, nt + 6),
            time_date_stamps: get_u32(buffer, nt + 8),
            pointer_to_symbol_table: get_u32(buffer, nt + 12),
            number_of_symbols: get_u32(buffer, nt + 16),
            size_of_optional_header: get_u16(buffer, nt + 20),
            characteristics: get_u16(buffer, nt + 22),
        };
        *offset = nt + 24;
        Ok(file_header)
    }

    /// The characteristics flag word.
    pub fn characteristics(&self) -> (r: u16)
        ensures
            r == self.characteristics,
    {
        self.characteristics
    }

    /// True when the `PE\0\0` signature was present: the machine field of a
    /// signed image is never zero.
    pub fn is_portable_executable(&self) -> (r: bool)
        ensures
            r == (self.machine != 0),
    {
        self.machine != 0
    }

    /// The target machine code.
    pub fn machine(&self) -> (r: u16)
        ensures
            r == self.machine,
    {
        self.machine
    }

    /// How many section headers follow the optional header.
    pub fn number_of_sections(&self) -> (r: u16)
        ensures
            r == self.number_of_sections,
    {
        self.number_of_sections
    }

    /// The symbol count of the deprecated COFF symbol table.
    pub fn number_of_symbols(&self) -> (r: u32)
        ensures
            r == self.number_of_symbols,
    {
        self.number_of_symbols
    }

    /// The file offset of the deprecated COFF symbol table.
    pub fn pointer_to_symbol_table(&self) -> (r: u32)
        ensures
            r == self.pointer_to_symbol_table,
    {
        self.pointer_to_symbol_table
    }

    /// The declared byte size of the optional header.
    pub fn size_of_optional_header(&self) -> (r: u16)
        ensures
            r == self.size_of_optional_header,
    {
        self.size_of_optional_header
    }

    /// The link timestamp.
    pub fn time_date_stamps(&self) -> (r: u32)
        ensures
            r == self.time_date_stamps,
    {
        self.time_date_stamps
    }
}

} // verus!
