//! The COR20 header: the CLR runtime header located through data-directory
//! slot fourteen of managed images.
use vstd::prelude::*;

use crate::constant::IMAGE_DIRECTORY_ENTRY_COM_DESCRIPTOR;
use crate::data_directory::DataDirectory;
use crate::error::ParseError;
use crate::executable::{spec_find_section, Executable};
use crate::reader::{get_u16, get_u32, le_u16_at, le_u32_at, span_fits};
use crate::section_header::{spec_rva_to_file_pointer, SectionHeader};

verus! {

/// The 72-byte CLR header.
#[derive(Clone, Copy, Debug)]
pub struct Cor20Header {
    pub cb: u32,
    pub major_runtime_version: u16,
    pub minor_runtime_version: u16,
    pub meta_data: DataDirectory,
    pub flags: u32,
    pub entry_point_rva: u32,
    pub resources: DataDirectory,
    pub strong_name_signature: DataDirectory,
    pub code_manager_table: DataDirectory,
    pub v_table_fixups: DataDirectory,
    pub export_address_table_jumps: DataDirectory,
    pub managed_native_header: DataDirectory,
}

/// The directory pair stored at `off`: an RVA then a size.
pub open spec fn spec_dir_pair(b: Seq<u8>, off: int) -> DataDirectory {
    DataDirectory { virtual_address: le_u32_at(b, off), size: le_u32_at(b, off + 4) }
}

/// The CLR header stored at `off .. off + 72`.
pub open spec fn spec_cor20_header(b: Seq<u8>, off: int) -> Cor20Header {
    Cor20Header {
        cb: le_u32_at(b, off),
        major_runtime_version: le_u16_at(b, off + 4),
        minor_runtime_version: le_u16_at(b, off + 6),
        meta_data: spec_dir_pair(b, off + 8),
        flags: le_u32_at(b, off + 16),
        entry_point_rva: le_u32_at(b, off + 20),
        resources: spec_dir_pair(b, off + 24),
        strong_name_signature: spec_dir_pair(b, off + 32),
        code_manager_table: spec_dir_pair(b, off + 40),
        v_table_fixups: spec_dir_pair(b, off + 48),
        export_address_table_jumps: spec_dir_pair(b, off + 56),
        managed_native_header: spec_dir_pair(b, off + 64),
    }
}

/// The outcome a COM-descriptor lookup owes for each image: absent when the
/// directory is empty, the decoded header when its span resolves, and the
/// matching error otherwise.
pub open spec fn spec_parse_cor20(
    b: Seq<u8>,
    dirs: Seq<DataDirectory>,
    ss: Seq<SectionHeader>,
    r: Result<Option<Cor20Header>, ParseError>,
) -> bool {
    let dd = dirs[IMAGE_DIRECTORY_ENTRY_COM_DESCRIPTOR as int];
    let found = spec_find_section(ss, dd.virtual_address as int);
    &&& dd.size == 0 ==> r == Ok::<Option<Cor20Header>, ParseError>(None)
    &&& dd.size != 0 && found is None ==> r == Err::<Option<Cor20Header>, ParseError>(
        ParseError::UnresolvableRva { rva: dd.virtual_address },
    )
    &&& dd.size != 0 ==> (found matches Some(i) ==> {
        let t = spec_rva_to_file_pointer(dd.virtual_address as int, ss[i]);
        &&& t + dd.size > b.len() ==> r == Err::<Option<Cor20Header>, ParseError>(
            ParseError::DecodeFailure { offset: (t + dd.size) as u64 },
        )
        &&& t + dd.size <= b.len() && t + 72 > b.len() ==> r == Err::<
            Option<Cor20Header>,
            ParseError,
        >(ParseError::DecodeFailure { offset: t as u64 })
        &&& t + dd.size <= b.len() && t + 72 <= b.len() ==> r == Ok::<
            Option<Cor20Header>,
            ParseError,
        >(Some(spec_cor20_header(b, t)))
    })
}

impl Cor20Header {
    /// Looks up data-directory slot fourteen, resolves it through its
    /// containing section, and decodes the CLR header there.  Absent
    /// directories yield `None`.
    pub fn parse(executable: &Executable) -> (r: Result<Option<Cor20Header>, ParseError>)
        requires
            executable.headers_parsed(),
        ensures
            spec_parse_cor20(
                executable.buffer@,
                executable.spec_data_directories(),
                executable.spec_sections(),
                r,
            ),
    {
        let dd = executable.optional_header.as_ref().unwrap().data_directories()[
            IMAGE_DIRECTORY_ENTRY_COM_DESCRIPTOR];
        if dd.size == 0 {
            return Ok(None);
        }
        let resolved = executable.resolve_directory(&dd)?;
        match Cor20Header::parse_at(executable.buffer(), resolved.1) {
            Ok(header) => Ok(Some(header)),
            Err(e) => Err(e),
        }
    }

    /// Decodes the 72-byte CLR header at `offset`.
    pub fn parse_at(buffer: &[u8], offset: usize) -> (r: Result<Cor20Header, ParseError>)
        ensures
            offset + 72 > buffer@.len() ==> r == Err::<Cor20Header, ParseError>(
                ParseError::DecodeFailure { offset: offset as u64 },
            ),
            offset + 72 <= buffer@.len() ==> r == Ok::<Cor20Header, ParseError>(
                spec_cor20_header(buffer@, offset as int),
            ),
    {
        if !span_fits(buffer, offset, 72) {
            return Err(ParseError::DecodeFailure { offset: offset as u64 });
        }
        Ok(
            Cor20Header {
                cb: get_u32(buffer, offset),
                major_runtime_version: get_u16(buffer, offset + 4),
                minor_runtime_version: get_u16(buffer, offset + 6),
                meta_data: DataDirectory::new(
                    get_u32(buffer, offset + 8),
                    get_u32(buffer, offset + 12),
                ),
                flags: get_u32(buffer, offset + 16),
                entry_point_rva: get_u32(buffer, offset + 20),
                resources: DataDirectory::new(
                    get_u32(buffer, offset + 24),
                    get_u32(buffer, offset + 28),
                ),
                strong_name_signature: DataDirectory::new(
                    get_u32(buffer, offset + 32),
                    get_u32(buffer, offset + 36),
                ),
                code_manager_table: DataDirectory::new(
                    get_u32(buffer, offset + 40),
                    get_u32(buffer, offset + 44),
                ),
                v_table_fixups: DataDirectory::new(
                    get_u32(buffer, offset + 48),
                    get_u32(buffer, offset + 52),
                ),
                export_address_table_jumps: DataDirectory::new(
                    get_u32(buffer, offset + 56),
                    get_u32(buffer, offset + 60),
                ),
                managed_native_header: DataDirectory::new(
                    get_u32(buffer, offset + 64),
                    get_u32(buffer, offset + 68),
                ),
            },
        )
    }

    /// The declared size of the header in bytes.
    pub fn cb(&self) -> (r: u32)
        ensures
            r == self.cb,
    {
        self.cb
    }

    /// The code-manager table location.
    pub fn code_manager_table(&self) -> (r: &DataDirectory)
        ensures
            r == &self.code_manager_table,
    {
        &self.code_manager_table
    }

    /// The entry point, read as an RVA.
    pub fn entry_point_rva(&self) -> (r: u32)
        ensures
            r == self.entry_point_rva,
    {
        self.entry_point_rva
    }

    /// The entry point, read as a metadata token.
    pub fn entry_point_token(&self) -> (r: u32)
        ensures
            r == self.entry_point_rva,
    {
        self.entry_point_rva
    }

    /// The export-address-table-jumps location.
    pub fn export_address_table_jumps(&self) -> (r: &DataDirectory)
        ensures
            r == &self.export_address_table_jumps,
    {
        &self.export_address_table_jumps
    }

    /// The runtime flag word.
    pub fn flags(&self) -> (r: u32)
        ensures
            r == self.flags,
    {
        self.flags
    }

    /// The required runtime major version.
    pub fn major_runtime_version(&self) -> (r: u16)
        ensures
            r == self.major_runtime_version,
    {
        self.major_runtime_version
    }

    /// The managed-native-header location.
    pub fn managed_native_header(&self) -> (r: &DataDirectory)
        ensures
            r == &self.managed_native_header,
    {
        &self.managed_native_header
    }

    /// The metadata location.
    pub fn meta_data(&self) -> (r: &DataDirectory)
        ensures
            r == &self.meta_data,
    {
        &self.meta_data
    }

    /// The required runtime minor version.
    pub fn minor_runtime_version(&self) -> (r: u16)
        ensures
            r == self.minor_runtime_version,
    {
        self.minor_runtime_version
    }

    /// The managed-resources location.
    pub fn resources(&self) -> (r: &DataDirectory)
        ensures
            r == &self.resources,
    {
        &self.resources
    }

    /// The strong-name-signature location.
    pub fn strong_name_signature(&self) -> (r: &DataDirectory)
        ensures
            r == &self.strong_name_signature,
    {
        &self.strong_name_signature
    }

    /// The v-table-fixups location.
    pub fn v_table_fixups(&self) -> (r: &DataDirectory)
        ensures
            r == &self.v_table_fixups,
    {
        &self.v_table_fixups
    }
}

} // verus!
