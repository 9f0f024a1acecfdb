//! The resolved load-configuration directory.
use vstd::prelude::*;

use crate::constant::IMAGE_DIRECTORY_ENTRY_LOAD_CONFIG;
use crate::data_directory::DataDirectory;
use crate::error::ParseError;
use crate::executable::{spec_find_section, Executable};
use crate::load_config_directory::{spec_load_config_directory_32, spec_load_config_directory_64,
    spec_unified_from_32, spec_unified_from_64, LoadConfigDirectory};
use crate::optional_header::X64_MACHINE;
use crate::section_header::{spec_rva_to_file_pointer, SectionHeader};

verus! {

/// The parsed load-configuration directory.
#[derive(Clone, Copy, Debug)]
pub struct LoadConfigContainer {
    pub directory: LoadConfigDirectory,
}

/// The outcome the load-configuration parser owes for each image: absent
/// when the directory is empty, the unified record in the layout the
/// architecture calls for when it parses, and the matching error otherwise.
pub open spec fn spec_parse_load_config(
    b: Seq<u8>,
    x64: bool,
    dirs: Seq<DataDirectory>,
    ss: Seq<SectionHeader>,
    r: Result<Option<LoadConfigContainer>, ParseError>,
) -> bool {
    let sz = if x64 {
        264int
    } else {
        164int
    };
    let dd = dirs[IMAGE_DIRECTORY_ENTRY_LOAD_CONFIG as int];
    let found = spec_find_section(ss, dd.virtual_address as int);
    &&& dd.size == 0 ==> r == Ok::<Option<LoadConfigContainer>, ParseError>(None)
    &&& r is Err ==> dd.size != 0
    &&& dd.size != 0 && found is None ==> r == Err::<Option<LoadConfigContainer>, ParseError>(
        ParseError::UnresolvableRva { rva: dd.virtual_address },
    )
    &&& dd.size != 0 ==> (found matches Some(i) ==> {
        let t = spec_rva_to_file_pointer(dd.virtual_address as int, ss[i]);
        &&& t + dd.size > b.len() ==> r == Err::<Option<LoadConfigContainer>, ParseError>(
            ParseError::DecodeFailure { offset: (t + dd.size) as u64 },
        )
        &&& t + dd.size <= b.len() && t + sz > b.len() ==> r == Err::<
            Option<LoadConfigContainer>,
            ParseError,
        >(ParseError::DecodeFailure { offset: t as u64 })
        &&& t + dd.size <= b.len() && t + sz <= b.len() && x64 ==> r == Ok::<
            Option<LoadConfigContainer>,
            ParseError,
        >(Some(LoadConfigContainer { directory: spec_unified_from_64(spec_load_config_directory_64(b, t)) }))
        &&& t + dd.size <= b.len() && t + sz <= b.len() && !x64 ==> r == Ok::<
            Option<LoadConfigContainer>,
            ParseError,
        >(Some(LoadConfigContainer { directory: spec_unified_from_32(spec_load_config_directory_32(b, t)) }))
    })
}

impl LoadConfigContainer {
    /// Looks up data-directory slot ten, resolves it through its containing
    /// section, and decodes the load configuration there in the layout the
    /// image's architecture calls for.  An absent directory yields `None`.
    pub fn parse(executable: &Executable) -> (r: Result<Option<LoadConfigContainer>, ParseError>)
        requires
            executable.headers_parsed(),
        ensures
            spec_parse_load_config(
                executable.buffer@,
                executable.file_header->Some_0.machine == X64_MACHINE,
                executable.spec_data_directories(),
                executable.spec_sections(),
                r,
            ),
    {
        let dd = executable.optional_header.as_ref().unwrap().data_directories()[
            IMAGE_DIRECTORY_ENTRY_LOAD_CONFIG];
        if dd.size == 0 {
            return Ok(None);
        }
        let resolved = executable.resolve_directory(&dd)?;
        let directory = LoadConfigDirectory::parse(
            executable.buffer(),
            resolved.1,
            executable.is_x64(),
        )?;
        Ok(Some(LoadConfigContainer { directory }))
    }

    /// The unified load-configuration record.
    pub fn directory(&self) -> (r: &LoadConfigDirectory)
        ensures
            r == &self.directory,
    {
        &self.directory
    }
}

} // verus!
