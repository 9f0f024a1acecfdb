//! Resolved debug-directory entries, each with its CodeView payload when the
//! record type is CodeView.
use vstd::prelude::*;

use crate::constant::IMAGE_DIRECTORY_ENTRY_DEBUG;
use crate::data_directory::DataDirectory;
use crate::debug_directory::{spec_debug_directory, DebugDirectory, BYTES_OF_DEBUG_DIRECTORY,
    IMAGE_DEBUG_TYPE_CODEVIEW};
use crate::error::{spec_parser_error, ParseError};
use crate::executable::{spec_find_section, Executable};
use crate::guid::{spec_guid, GUID};
use crate::reader::{first_nul, get_u32, le_u32_at, read_string, span_fits, str_at};
use crate::section_header::{resolve_rva, spec_rva_to_file_pointer, spec_section_contains,
    SectionHeader};
use vstd::arithmetic::div_mod::lemma_fundamental_div_mod;

verus! {

/// The CodeView payload: a format signature, the PDB GUID, an age counter
/// and the zero-terminated PDB path.
#[derive(Clone, Debug)]
pub struct CodeView {
    pub format: u32,
    pub guid: GUID,
    pub age: u32,
    pub path: String,
}

/// True when `cv` holds exactly the CodeView record stored at `off`: a
/// `u32` format, 16 GUID bytes, a `u32` age and a zero-terminated path.
pub open spec fn code_view_matches(cv: CodeView, b: Seq<u8>, off: int) -> bool {
    &&& cv.format == le_u32_at(b, off)
    &&& cv.guid == spec_guid(b, off + 4)
    &&& cv.age == le_u32_at(b, off + 20)
    &&& cv.path@ == str_at(b, off + 24)
}

impl CodeView {
    /// Decodes the CodeView record at `offset`: the format signature, the
    /// GUID, the age, and the zero-terminated PDB path.
    pub fn parse(buffer: &[u8], offset: usize) -> (r: Result<CodeView, ParseError>)
        ensures
            offset + 24 > buffer@.len() ==> r == Err::<CodeView, ParseError>(
                ParseError::DecodeFailure { offset: offset as u64 },
            ),
            offset + 24 <= buffer@.len() && first_nul(buffer@, offset + 24) >= buffer@.len() ==> r
                == Err::<CodeView, ParseError>(
                ParseError::StringDecodeFailure { offset: (offset + 24) as u64 },
            ),
            offset + 24 <= buffer@.len() && first_nul(buffer@, offset + 24) < buffer@.len() ==> (r
                matches Ok(cv) && code_view_matches(cv, buffer@, offset as int)),
    {
        if !span_fits(buffer, offset, 24) {
            return Err(ParseError::DecodeFailure { offset: offset as u64 });
        }
        let path = read_string(buffer, offset + 24)?;
        Ok(
            CodeView {
                format: get_u32(buffer, offset),
                guid: GUID::parse(buffer, offset + 4),
                age: get_u32(buffer, offset + 20),
                path,
            },
        )
    }

    /// The age counter, incremented on each PDB write.
    pub fn age(&self) -> (r: u32)
        ensures
            r == self.age,
    {
        self.age
    }

    /// The format signature.
    pub fn format(&self) -> (r: u32)
        ensures
            r == self.format,
    {
        self.format
    }

    /// The PDB GUID.
    pub fn guid(&self) -> (r: &GUID)
        ensures
            r == &self.guid,
    {
        &self.guid
    }

    /// The PDB path.
    pub fn path(&self) -> (r: String)
        ensures
            r@ == self.path@,
    {
        self.path.clone()
    }
}

/// One debug-directory record together with its decoded CodeView payload,
/// present exactly for CodeView-typed records.
#[derive(Clone, Debug)]
pub struct DebugContainer {
    pub directory: DebugDirectory,
    pub code_view: Option<CodeView>,
}

/// True when `c` holds exactly the debug record stored at `off`, with its
/// CodeView payload decoded through `section` exactly when the record type
/// is CodeView.
pub open spec fn debug_container_matches(
    c: DebugContainer,
    b: Seq<u8>,
    section: SectionHeader,
    off: int,
) -> bool {
    let d = spec_debug_directory(b, off);
    &&& c.directory == d
    &&& if d.type_code == IMAGE_DEBUG_TYPE_CODEVIEW {
        let t = spec_rva_to_file_pointer(d.address_of_raw_data as int, section);
        c.code_view matches Some(cv) && code_view_matches(cv, b, t)
    } else {
        c.code_view is None
    }
}

/// True when record `k` of the debug directory at `t` parses: a CodeView
/// record's payload RVA lies in the section, with room for the fixed part
/// and a terminated path; records of other types always parse.
pub open spec fn spec_debug_record_ok(b: Seq<u8>, sec: SectionHeader, t: int, k: int) -> bool {
    let d = spec_debug_directory(b, t + 28 * k);
    d.type_code == IMAGE_DEBUG_TYPE_CODEVIEW ==> {
        let cv = spec_rva_to_file_pointer(d.address_of_raw_data as int, sec);
        &&& spec_section_contains(sec, d.address_of_raw_data as int)
        &&& cv + 24 <= b.len()
        &&& first_nul(b, cv + 24) < b.len()
    }
}

/// True when the whole debug directory at `t` with byte size `size`
/// parses: every one of its fixed 28-byte records does.
pub open spec fn spec_debug_ok(b: Seq<u8>, sec: SectionHeader, t: int, size: int) -> bool {
    forall|k: int| 0 <= k < size / 28 ==> #[trigger] spec_debug_record_ok(b, sec, t, k)
}

/// The outcome the debug parser owes for each image: absent when the
/// directory is empty, one matching container per 28-byte record when the
/// parse succeeds, and the matching error when the directory cannot be
/// resolved.
pub open spec fn spec_parse_debug(
    b: Seq<u8>,
    dirs: Seq<DataDirectory>,
    ss: Seq<SectionHeader>,
    r: Result<Option<Vec<DebugContainer>>, ParseError>,
) -> bool {
    let dd = dirs[IMAGE_DIRECTORY_ENTRY_DEBUG as int];
    let found = spec_find_section(ss, dd.virtual_address as int);
    &&& dd.size == 0 ==> r == Ok::<Option<Vec<DebugContainer>>, ParseError>(None)
    &&& r is Err ==> dd.size != 0
    &&& dd.size != 0 && found is None ==> r == Err::<Option<Vec<DebugContainer>>, ParseError>(
        ParseError::UnresolvableRva { rva: dd.virtual_address },
    )
    &&& dd.size != 0 ==> (found matches Some(i) ==> {
        let t = spec_rva_to_file_pointer(dd.virtual_address as int, ss[i]);
        &&& t + dd.size > b.len() ==> r == Err::<Option<Vec<DebugContainer>>, ParseError>(
            ParseError::DecodeFailure { offset: (t + dd.size) as u64 },
        )
        &&& t + dd.size <= b.len() ==> (r is Ok <==> spec_debug_ok(b, ss[i], t, dd.size as int))
        &&& r matches Ok(o) ==> o matches Some(v) && v@.len() == dd.size as int / 28 && forall|
            k: int,
        |
            0 <= k < v@.len() ==> debug_container_matches(#[trigger] v@[k], b, ss[i], t + 28 * k)
    })
}

impl DebugContainer {
    /// Looks up data-directory slot six and decodes its fixed 28-byte
    /// records, one container per record, resolving the CodeView payload of
    /// every CodeView-typed record.  An absent directory yields `None`.
    pub fn parse(executable: &Executable) -> (r: Result<Option<Vec<DebugContainer>>, ParseError>)
        requires
            executable.headers_parsed(),
        ensures
            r matches Err(e) ==> spec_parser_error(e),
            spec_parse_debug(
                executable.buffer@,
                executable.spec_data_directories(),
                executable.spec_sections(),
                r,
            ),
    {
        let dd = executable.optional_header.as_ref().unwrap().data_directories()[
            IMAGE_DIRECTORY_ENTRY_DEBUG];
        let debug_dir_size = dd.size;
        if debug_dir_size == 0 {
            return Ok(None);
        }
        let resolved = executable.resolve_directory(&dd)?;
        let sections = executable.section_headers.as_ref().unwrap();
        let section = &sections[resolved.0];
        let buffer = executable.buffer();
        let buffer_len = buffer.len();
        let ghost b = executable.buffer@;
        let ghost sec = executable.spec_sections()[resolved.0 as int];
        let mut offset: usize = resolved.1;
        let ghost t = resolved.1 as int;
        let count = debug_dir_size / BYTES_OF_DEBUG_DIRECTORY;
        proof {
            lemma_fundamental_div_mod(debug_dir_size as int, 28);
        }
        let mut vector: Vec<DebugContainer> = Vec::new();
        let mut k: u32 = 0;
        while k < count
            invariant
                k <= count,
                executable.headers_parsed(),
                b == executable.buffer@,
                b == buffer@,
                sec == *section,
                dd == executable.spec_data_directories()[IMAGE_DIRECTORY_ENTRY_DEBUG as int],
                dd.size != 0,
                spec_find_section(executable.spec_sections(), dd.virtual_address as int) == Some(
                    resolved.0 as int,
                ),
                sec == executable.spec_sections()[resolved.0 as int],
                t == resolved.1,
                t == spec_rva_to_file_pointer(dd.virtual_address as int, sec),
                t + dd.size <= b.len(),
                count == dd.size as int / 28,
                offset == t + 28 * k,
                t + 28 * count <= b.len(),
                b.len() <= usize::MAX,
                vector@.len() == k,
                forall|j: int|
                    0 <= j < k ==> debug_container_matches(vector@[j], b, sec, t + 28 * j),
                forall|j: int| 0 <= j < k ==> #[trigger] spec_debug_record_ok(b, sec, t, j),
            decreases count - k,
        {
            let directory = DebugDirectory::parse(buffer, &mut offset)?;
            if directory.type_code() == IMAGE_DEBUG_TYPE_CODEVIEW {
                let cv_offset = match resolve_rva(buffer, directory.address_of_raw_data(), section) {
                    Ok(cv_offset) => cv_offset,
                    Err(e) => {
                        proof {
                            assert(!spec_debug_record_ok(b, sec, t, k as int));
                            assert(!spec_debug_ok(b, sec, t, dd.size as int));
                        }
                        return Err(e);
                    },
                };
                let code_view = match CodeView::parse(buffer, cv_offset) {
                    Ok(code_view) => code_view,
                    Err(e) => {
                        proof {
                            assert(!spec_debug_record_ok(b, sec, t, k as int));
                            assert(!spec_debug_ok(b, sec, t, dd.size as int));
                        }
                        return Err(e);
                    },
                };
                proof {
                    assert(spec_debug_record_ok(b, sec, t, k as int));
                }
                vector.push(DebugContainer { directory, code_view: Some(code_view) });
            } else {
                proof {
                    assert(spec_debug_record_ok(b, sec, t, k as int));
                }
                vector.push(DebugContainer { directory, code_view: None });
            }
            k = k + 1;
        }
        proof {
            assert(spec_debug_ok(b, sec, t, dd.size as int));
        }
        Ok(Some(vector))
    }

    /// The CodeView payload, present only for CodeView records.
    pub fn code_view(&self) -> (r: Option<&CodeView>)
        ensures
            r matches Some(cv) ==> self.code_view matches Some(w) && cv == &w,
            r is None <==> self.code_view is None,
    {
        self.code_view.as_ref()
    }

    /// The raw debug-directory record.
    pub fn directory(&self) -> (r: DebugDirectory)
        ensures
            r == self.directory,
    {
        self.directory
    }
}

} // verus!
