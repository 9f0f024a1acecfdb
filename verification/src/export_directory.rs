//! The export directory: the table header that locates exported functions,
//! their names and their ordinals.
use vstd::prelude::*;

use crate::error::ParseError;
use crate::reader::{chars_of_bytes, first_nul, get_u16, get_u32, le_u16_at, le_u32_at,
    read_string, span_fits, str_at};
use crate::section_header::{resolve_rva, spec_rva_to_file_pointer, spec_section_contains,
    SectionHeader};

verus! {

/// The 40-byte export directory, with its module name resolved.
#[derive(Clone, Debug)]
pub struct ExportDirectory {
    pub characteristics: u32,
    pub time_date_stamp: u32,
    pub major_version: u16,
    pub minor_version: u16,
    pub address_of_name: u32,
    pub name: String,
    pub base: u32,
    pub number_of_functions: u32,
    pub number_of_names: u32,
    pub address_of_functions: u32,
    pub address_of_names: u32,
    pub address_of_name_ordinals: u32,
}

/// True when `d` holds exactly the export directory stored at
/// `off .. off + 40`, its `name` resolved through `section` from the RVA
/// stored in `address_of_name`.
pub open spec fn export_directory_matches(
    d: ExportDirectory,
    b: Seq<u8>,
    off: int,
    section: SectionHeader,
) -> bool {
    &&& d.characteristics == le_u32_at(b, off)
    &&& d.time_date_stamp == le_u32_at(b, off + 4)
    &&& d.major_version == le_u16_at(b, off + 8)
    &&& d.minor_version == le_u16_at(b, off + 10)
    &&& d.address_of_name == le_u32_at(b, off + 12)
    &&& d.name@ == str_at(b, spec_rva_to_file_pointer(le_u32_at(b, off + 12) as int, section))
    &&& d.base == le_u32_at(b, off + 16)
    &&& d.number_of_functions == le_u32_at(b, off + 20)
    &&& d.number_of_names == le_u32_at(b, off + 24)
    &&& d.address_of_functions == le_u32_at(b, off + 28)
    &&& d.address_of_names == le_u32_at(b, off + 32)
    &&& d.address_of_name_ordinals == le_u32_at(b, off + 36)
}

impl ExportDirectory {
    /// Decodes the export directory at `offset` and resolves the module name
    /// it points to through `section`.
    pub fn parse(buffer: &[u8], section: &SectionHeader, offset: usize) -> (r: Result<
        ExportDirectory,
        ParseError,
    >)
        ensures
            offset + 40 > buffer@.len() ==> r == Err::<ExportDirectory, ParseError>(
                ParseError::DecodeFailure { offset: offset as u64 },
            ),
            offset + 40 <= buffer@.len() ==> {
                let name_rva = le_u32_at(buffer@, offset + 12) as int;
                let t = spec_rva_to_file_pointer(name_rva, *section);
                &&& !spec_section_contains(*section, name_rva) ==> r == Err::<
                    ExportDirectory,
                    ParseError,
                >(ParseError::UnresolvableRva { rva: name_rva as u32 })
                &&& spec_section_contains(*section, name_rva) && t > buffer@.len() ==> r == Err::<
                    ExportDirectory,
                    ParseError,
                >(ParseError::DecodeFailure { offset: t as u64 })
                &&& spec_section_contains(*section, name_rva) && t <= buffer@.len() && first_nul(
                    buffer@,
                    t,
                ) >= buffer@.len() ==> r == Err::<ExportDirectory, ParseError>(
                    ParseError::StringDecodeFailure { offset: t as u64 },
                )
                &&& spec_section_contains(*section, name_rva) && t <= buffer@.len() && first_nul(
                    buffer@,
                    t,
                ) < buffer@.len() ==> (r matches Ok(d) && export_directory_matches(
                    d,
                    buffer@,
                    offset as int,
                    *section,
                ))
            },
    {
        if !span_fits(buffer, offset, 40) {
            return Err(ParseError::DecodeFailure { offset: offset as u64 });
        }
        let address_of_name = get_u32(buffer, offset + 12);
        let name_offset = resolve_rva(buffer, address_of_name, section)?;
        let name = read_string(buffer, name_offset)?;
        Ok(
            ExportDirectory {
                characteristics: get_u32(buffer, offset),
                time_date_stamp: get_u32(buffer, offset + 4),
                major_version: get_u16(buffer, offset + 8),
                minor_version: get_u16(buffer, offset + 10),
                address_of_name,
                name,
                base: get_u32(buffer, offset + 16),
                number_of_functions: get_u32(buffer, offset + 20),
                number_of_names: get_u32(buffer, offset + 24),
                address_of_functions: get_u32(buffer, offset + 28),
                address_of_names: get_u32(buffer, offset + 32),
                address_of_name_ordinals: get_u32(buffer, offset + 36),
            },
        )
    }

    /// The RVA of the export-address table.
    pub fn address_of_functions(&self) -> (r: u32)
        ensures
            r == self.address_of_functions,
    {
        self.address_of_functions
    }

    /// The RVA of the name-ordinal table.
    pub fn address_of_name_ordinals(&self) -> (r: u32)
        ensures
            r == self.address_of_name_ordinals,
    {
        self.address_of_name_ordinals
    }

    /// The RVA of the name-pointer table.
    pub fn address_of_names(&self) -> (r: u32)
        ensures
            r == self.address_of_names,
    {
        self.address_of_names
    }

    /// The ordinal base added to every export index.
    pub fn base(&self) -> (r: u32)
        ensures
            r == self.base,
    {
        self.base
    }

    /// Reserved flag word.
    pub fn characteristics(&self) -> (r: u32)
        ensures
            r == self.characteristics,
    {
        self.characteristics
    }

    /// The directory major version.
    pub fn major_version(&self) -> (r: u16)
        ensures
            r == self.major_version,
    {
        self.major_version
    }

    /// The directory minor version.
    pub fn minor_version(&self) -> (r: u16)
        ensures
            r == self.minor_version,
    {
        self.minor_version
    }

    /// The resolved module name.
    pub fn name(&self) -> (r: String)
        ensures
            r@ == self.name@,
    {
        self.name.clone()
    }

    /// How many slots the export-address table has.
    pub fn number_of_functions(&self) -> (r: u32)
        ensures
            r == self.number_of_functions,
    {
        self.number_of_functions
    }

    /// How many entries the name tables have.
    pub fn number_of_names(&self) -> (r: u32)
        ensures
            r == self.number_of_names,
    {
        self.number_of_names
    }

    /// The directory timestamp.
    pub fn time_date_stamp(&self) -> (r: u32)
        ensures
            r == self.time_date_stamp,
    {
        self.time_date_stamp
    }
}

} // verus!
