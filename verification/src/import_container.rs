//! The resolved import directory: one descriptor per imported module, each
//! with the functions named by its parallel thunk tables.
use vstd::prelude::*;

use crate::constant::IMAGE_DIRECTORY_ENTRY_IMPORT;
use crate::data_directory::DataDirectory;
use crate::error::{spec_parser_error, ParseError};
use crate::executable::{spec_find_section, Executable};
use crate::reader::{first_nul, get_u16, get_u32, get_u64, le_u16_at, le_u32_at, le_u64_at,
    ordinal_name, ordinal_name_chars, read_string, span_fits, str_at};
use crate::section_header::{resolve_rva, spec_rva_to_file_pointer, spec_section_contains,
    SectionHeader};

verus! {

/// One imported function: the value stored in its import-address-table
/// slot, and the hint and name taken from the import-name table.  Ordinal
/// imports have no hint and a synthesized `(Ordinal N)` name.
#[derive(Clone, Debug)]
pub struct ImportFunction {
    pub address: u64,
    pub hint: Option<u16>,
    pub name: String,
}

impl ImportFunction {
    /// The value stored in the import-address-table slot.
    pub fn address(&self) -> (r: u64)
        ensures
            r == self.address,
    {
        self.address
    }

    /// The import hint, absent for ordinal imports.
    pub fn hint(&self) -> (r: Option<u16>)
        ensures
            r == self.hint,
    {
        self.hint
    }

    /// The import name, synthesized as `(Ordinal N)` for ordinal imports.
    pub fn name(&self) -> (r: String)
        ensures
            r@ == self.name@,
    {
        self.name.clone()
    }
}

/// A decoded `IMAGE_IMPORT_BY_NAME` record: a hint and a name.
#[derive(Clone, Debug)]
pub struct ImageImportByName {
    pub hint: Option<u16>,
    pub name: String,
}

/// One 32-bit thunk slot: an ordinal when the high bit is set, else an RVA.
#[derive(Clone, Copy, Debug)]
pub struct ImageThunkData32 {
    pub u1: u32,
}

impl ImageThunkData32 {
    /// The slot read as a forwarder-string RVA.
    pub fn forwarder_string(&self) -> (r: u32)
        ensures
            r == self.u1,
    {
        self.u1
    }

    /// The slot read as a function address.
    pub fn function(&self) -> (r: u32)
        ensures
            r == self.u1,
    {
        self.u1
    }

    /// The slot read as an ordinal word.
    pub fn ordinal(&self) -> (r: u32)
        ensures
            r == self.u1,
    {
        self.u1
    }

    /// The slot read as the RVA of an `IMAGE_IMPORT_BY_NAME` record.
    pub fn address_of_data(&self) -> (r: u32)
        ensures
            r == self.u1,
    {
        self.u1
    }
}

/// One 64-bit thunk slot: an ordinal when the high bit is set, else an RVA.
#[derive(Clone, Copy, Debug)]
pub struct ImageThunkData64 {
    pub u1: u64,
}

impl ImageThunkData64 {
    /// The slot read as a forwarder-string RVA.
    pub fn forwarder_string(&self) -> (r: u64)
        ensures
            r == self.u1,
    {
        self.u1
    }

    /// The slot read as a function address.
    pub fn function(&self) -> (r: u64)
        ensures
            r == self.u1,
    {
        self.u1
    }

    /// The slot read as an ordinal word.
    pub fn ordinal(&self) -> (r: u64)
        ensures
            r == self.u1,
    {
        self.u1
    }

    /// The slot read as the RVA of an `IMAGE_IMPORT_BY_NAME` record.
    pub fn address_of_data(&self) -> (r: u64)
        ensures
            r == self.u1,
    {
        self.u1
    }
}

/// One 20-byte import descriptor with its resolved module name and function
/// list.  The `characteristics` field doubles as the original-first-thunk
/// RVA.
#[derive(Clone, Debug)]
pub struct ImportDescriptor {
    pub characteristics: u32,
    pub time_date_stamp: u32,
    pub forwarder_chain: u32,
    pub address_of_name: u32,
    pub name: String,
    pub first_thunk: u32,
    pub functions: Option<Vec<ImportFunction>>,
}

impl ImportDescriptor {
    /// The first raw field, aliased by `original_first_thunk`.
    pub fn characteristics(&self) -> (r: u32)
        ensures
            r == self.characteristics,
    {
        self.characteristics
    }

    /// The RVA of the import-address table.
    pub fn first_thunk(&self) -> (r: u32)
        ensures
            r == self.first_thunk,
    {
        self.first_thunk
    }

    /// The forwarder-chain index.
    pub fn forwarder_chain(&self) -> (r: u32)
        ensures
            r == self.forwarder_chain,
    {
        self.forwarder_chain
    }

    /// The RVA of the import-name table, stored in `characteristics`.
    pub fn original_first_thunk(&self) -> (r: u32)
        ensures
            r == self.characteristics,
    {
        self.characteristics
    }

    /// The resolved module name.
    pub fn name(&self) -> (r: String)
        ensures
            r@ == self.name@,
    {
        self.name.clone()
    }

    /// The descriptor timestamp.
    pub fn time_date_stamp(&self) -> (r: u32)
        ensures
            r == self.time_date_stamp,
    {
        self.time_date_stamp
    }

    /// The functions imported from the module.
    pub fn functions(&self) -> (r: &Vec<ImportFunction>)
        requires
            self.functions is Some,
        ensures
            self.functions matches Some(v) && r == &v,
    {
        self.functions.as_ref().unwrap()
    }
}

/// The parsed import directory: every descriptor before the all-zero
/// terminator.
#[derive(Clone, Debug)]
pub struct ImportContainer {
    pub descriptors: Vec<ImportDescriptor>,
}

/// Walks the import-address table and the import-name table in lockstep
/// from their resolved file offsets, building one function per thunk pair
/// until the two zero terminators.  The tables must end together: a zero in
/// only one of them is a decode failure at the zero entry.
fn parse_import_functions(
    buffer: &[u8],
    section: &SectionHeader,
    x64: bool,
    iat_off: usize,
    int_off: usize,
) -> (r: Result<Vec<ImportFunction>, ParseError>)
    requires
        iat_off <= buffer@.len(),
        int_off <= buffer@.len(),
    ensures
        r matches Err(e) ==> spec_parser_error(e),
        r is Ok <==> spec_thunk_pairs_ok(buffer@, *section, x64, iat_off as int, int_off as int),
        r matches Ok(fs) ==> {
            let w = spec_thunk_width(x64);
            let n = fs@.len() as int;
            &&& forall|j: int|
                0 <= j < n ==> #[trigger] spec_thunk_at(buffer@, iat_off as int, x64, j) != 0
            &&& forall|j: int|
                0 <= j < n ==> #[trigger] spec_thunk_at(buffer@, int_off as int, x64, j) != 0
            &&& spec_thunk_at(buffer@, iat_off as int, x64, n) == 0
            &&& spec_thunk_at(buffer@, int_off as int, x64, n) == 0
            &&& iat_off + w * n + w <= buffer@.len()
            &&& int_off + w * n + w <= buffer@.len()
            &&& forall|j: int|
                0 <= j < n ==> import_function_matches(
                    fs@[j],
                    buffer@,
                    *section,
                    x64,
                    iat_off as int,
                    int_off as int,
                    j,
                )
        },
{
    let ghost b = buffer@;
    let ghost sec = *section;
    let w: usize = if x64 {
        8
    } else {
        4
    };
    let buffer_len = buffer.len();
    let mut functions: Vec<ImportFunction> = Vec::new();
    let mut ia: usize = iat_off;
    let mut na: usize = int_off;
    let mut done = false;
    while !done
        invariant
            b == buffer@,
            sec == *section,
            buffer_len == b.len(),
            w == spec_thunk_width(x64),
            ia == iat_off + w * functions@.len(),
            na == int_off + w * functions@.len(),
            ia <= b.len(),
            na <= b.len(),
            forall|j: int|
                0 <= j < functions@.len() ==> #[trigger] spec_thunk_at(b, iat_off as int, x64, j)
                    != 0,
            forall|j: int|
                0 <= j < functions@.len() ==> #[trigger] spec_thunk_at(b, int_off as int, x64, j)
                    != 0,
            forall|j: int|
                0 <= j < functions@.len() ==> import_function_matches(
                    functions@[j],
                    b,
                    sec,
                    x64,
                    iat_off as int,
                    int_off as int,
                    j,
                ),
            done ==> {
                let n = functions@.len() as int;
                &&& spec_thunk_at(b, iat_off as int, x64, n) == 0
                &&& spec_thunk_at(b, int_off as int, x64, n) == 0
                &&& iat_off + w * n + w <= b.len()
                &&& int_off + w * n + w <= b.len()
            },
            !done ==> spec_thunk_pairs_ok(b, sec, x64, iat_off as int, int_off as int)
                == spec_thunk_pairs_ok(b, sec, x64, ia as int, na as int),
            done ==> spec_thunk_pairs_ok(b, sec, x64, iat_off as int, int_off as int),
        decreases
                if done {
                    0int
                } else {
                    b.len() + 1 - ia
                },
    {
        if !span_fits(buffer, ia, w) {
            proof {
                assert(!spec_thunk_pairs_ok(b, sec, x64, ia as int, na as int));
            }
            return Err(ParseError::DecodeFailure { offset: ia as u64 });
        }
        if !span_fits(buffer, na, w) {
            proof {
                assert(!spec_thunk_pairs_ok(b, sec, x64, ia as int, na as int));
            }
            return Err(ParseError::DecodeFailure { offset: na as u64 });
        }
        let address: u64 = if x64 {
            get_u64(buffer, ia)
        } else {
            get_u32(buffer, ia) as u64
        };
        let entry: u64 = if x64 {
            get_u64(buffer, na)
        } else {
            get_u32(buffer, na) as u64
        };
        proof {
            assert(spec_thunk_at(b, ia as int, x64, 0) == address);
            assert(spec_thunk_at(b, na as int, x64, 0) == entry);
        }
        if address == 0 && entry == 0 {
            proof {
                assert(spec_thunk_pairs_ok(b, sec, x64, ia as int, na as int));
            }
            done = true;
        } else if address == 0 {
            proof {
                assert(!spec_thunk_pairs_ok(b, sec, x64, ia as int, na as int));
            }
            return Err(ParseError::DecodeFailure { offset: ia as u64 });
        } else if entry == 0 {
            proof {
                assert(!spec_thunk_pairs_ok(b, sec, x64, ia as int, na as int));
            }
            return Err(ParseError::DecodeFailure { offset: na as u64 });
        } else {
            let is_ordinal = if x64 {
                ImportContainer::snap_by_ordinal64(entry)
            } else {
                ImportContainer::snap_by_ordinal32(entry as u32)
            };
            let function = if is_ordinal {
                ImportFunction { address, hint: None, name: ordinal_name(entry % 0x1_0000) }
            } else {
                let name_field: u64 = if x64 {
                    entry % 0x8000_0000_0000_0000
                } else {
                    entry % 0x8000_0000
                };
                if name_field > 0xFFFF_FFFF {
                    proof {
                        assert(!spec_import_entry_ok(b, sec, x64, entry));
                        assert(!spec_thunk_pairs_ok(b, sec, x64, ia as int, na as int));
                    }
                    return Err(ParseError::DecodeFailure { offset: na as u64 });
                }
                let record = match resolve_rva(buffer, name_field as u32, section) {
                    Ok(record) => record,
                    Err(e) => {
                        proof {
                            assert(!spec_import_entry_ok(b, sec, x64, entry));
                            assert(!spec_thunk_pairs_ok(b, sec, x64, ia as int, na as int));
                        }
                        return Err(e);
                    },
                };
                if !span_fits(buffer, record, 2) {
                    proof {
                        assert(!spec_import_entry_ok(b, sec, x64, entry));
                        assert(!spec_thunk_pairs_ok(b, sec, x64, ia as int, na as int));
                    }
                    return Err(ParseError::DecodeFailure { offset: record as u64 });
                }
                let hint = get_u16(buffer, record);
                let name = match read_string(buffer, record + 2) {
                    Ok(name) => name,
                    Err(e) => {
                        proof {
                            assert(!spec_import_entry_ok(b, sec, x64, entry));
                            assert(!spec_thunk_pairs_ok(b, sec, x64, ia as int, na as int));
                        }
                        return Err(e);
                    },
                };
                ImportFunction { address, hint: Some(hint), name }
            };
            proof {
                assert(spec_thunk_at(b, iat_off as int, x64, functions@.len() as int) == address);
                assert(spec_thunk_at(b, int_off as int, x64, functions@.len() as int) == entry);
                assert(spec_import_entry_ok(b, sec, x64, entry));
                assert(spec_thunk_pairs_ok(b, sec, x64, ia as int, na as int)
                    == spec_thunk_pairs_ok(b, sec, x64, ia + w, na + w));
            }
            functions.push(function);
            ia = ia + w;
            na = na + w;
        }
    }
    Ok(functions)
}

/// True when the non-terminator descriptor stored at `off` parses: its
/// module name resolves and terminates, both thunk-table RVAs resolve, and
/// the two tables walk to their terminators together.
pub open spec fn spec_import_descriptor_ok(
    b: Seq<u8>,
    sec: SectionHeader,
    x64: bool,
    off: int,
) -> bool {
    let name_rva = le_u32_at(b, off + 12);
    let int_rva = le_u32_at(b, off);
    let iat_rva = le_u32_at(b, off + 16);
    &&& spec_section_contains(sec, name_rva as int)
    &&& first_nul(b, spec_rva_to_file_pointer(name_rva as int, sec)) < b.len()
    &&& spec_section_contains(sec, iat_rva as int)
    &&& spec_rva_to_file_pointer(iat_rva as int, sec) <= b.len()
    &&& spec_section_contains(sec, int_rva as int)
    &&& spec_rva_to_file_pointer(int_rva as int, sec) <= b.len()
    &&& spec_thunk_pairs_ok(
        b,
        sec,
        x64,
        spec_rva_to_file_pointer(iat_rva as int, sec),
        spec_rva_to_file_pointer(int_rva as int, sec),
    )
}

/// True when the whole descriptor table at `off` parses: each descriptor
/// fits and parses until an all-zero terminator, itself inside the buffer.
pub open spec fn spec_import_descriptors_ok(
    b: Seq<u8>,
    sec: SectionHeader,
    x64: bool,
    off: int,
) -> bool
    decreases b.len() + 20 - off,
{
    if !(0 <= off && off + 20 <= b.len()) {
        false
    } else if le_u32_at(b, off) == 0 {
        true
    } else {
        spec_import_descriptor_ok(b, sec, x64, off) && spec_import_descriptors_ok(
            b,
            sec,
            x64,
            off + 20,
        )
    }
}

/// Decodes the import descriptor at `offset`, resolving its module name
/// and walking its two thunk tables through `section`.  The all-zero
/// terminator, recognized by its zero original-first-thunk word, yields
/// `None`.
fn parse_one_descriptor(buffer: &[u8], section: &SectionHeader, x64: bool, offset: usize) -> (r:
    Result<Option<ImportDescriptor>, ParseError>)
    requires
        offset + 20 <= buffer@.len(),
    ensures
        r matches Err(e) ==> spec_parser_error(e),
        r is Err ==> le_u32_at(buffer@, offset as int) != 0,
        le_u32_at(buffer@, offset as int) != 0 ==> (r is Ok <==> spec_import_descriptor_ok(
            buffer@,
            *section,
            x64,
            offset as int,
        )),
        r matches Ok(o) ==> {
            &&& (o is None <==> le_u32_at(buffer@, offset as int) == 0)
            &&& (o matches Some(d) ==> import_descriptor_matches(
                d,
                buffer@,
                *section,
                x64,
                offset as int,
            ))
        },
{
    let ghost b = buffer@;
    let ghost sec = *section;
    let buffer_len = buffer.len();
    let characteristics = get_u32(buffer, offset);
    if characteristics == 0 {
        return Ok(None);
    }
    let time_date_stamp = get_u32(buffer, offset + 4);
    let forwarder_chain = get_u32(buffer, offset + 8);
    let address_of_name = get_u32(buffer, offset + 12);
    let first_thunk = get_u32(buffer, offset + 16);
    let name_offset = resolve_rva(buffer, address_of_name, section)?;
    let name = read_string(buffer, name_offset)?;
    let iat_off = resolve_rva(buffer, first_thunk, section)?;
    let int_off = resolve_rva(buffer, characteristics, section)?;
    let functions = parse_import_functions(buffer, section, x64, iat_off, int_off)?;
    Ok(
        Some(
            ImportDescriptor {
                characteristics,
                time_date_stamp,
                forwarder_chain,
                address_of_name,
                name,
                first_thunk,
                functions: Some(functions),
            },
        ),
    )
}

/// True when `c` holds exactly the descriptor table stored at file offset
/// `t`: every descriptor before the all-zero terminator, in image order,
/// each matching its 20-byte record.
pub open spec fn import_container_matches(
    c: ImportContainer,
    b: Seq<u8>,
    sec: SectionHeader,
    x64: bool,
    t: int,
) -> bool {
    let n = c.descriptors@.len() as int;
    &&& forall|k: int| 0 <= k < n ==> #[trigger] spec_descriptor_oft(b, t, k) != 0
    &&& forall|k: int|
        0 <= k < n ==> import_descriptor_matches(
            #[trigger] c.descriptors@[k],
            b,
            sec,
            x64,
            t + 20 * k,
        )
    &&& t + 20 * n + 20 <= b.len()
    &&& le_u32_at(b, t + 20 * n) == 0
}

/// A parsed descriptor's function list is exactly as long as the run of
/// non-zero entries in its import-address table, and the run of non-zero
/// entries in its import-name table has the same length: both tables hold
/// the list's length in non-zero entries and then a zero terminator.
pub proof fn lemma_import_table_lengths(
    d: ImportDescriptor,
    b: Seq<u8>,
    sec: SectionHeader,
    x64: bool,
    off: int,
)
    requires
        import_descriptor_matches(d, b, sec, x64, off),
    ensures
        ({
            let w = spec_thunk_width(x64);
            let iat_off = spec_rva_to_file_pointer(d.first_thunk as int, sec);
            let int_off = spec_rva_to_file_pointer(d.characteristics as int, sec);
            &&& d.functions matches Some(fs) && {
                let n = fs@.len() as int;
                &&& forall|j: int|
                    0 <= j < n ==> #[trigger] spec_thunk_at(b, iat_off, x64, j) != 0
                &&& forall|j: int|
                    0 <= j < n ==> #[trigger] spec_thunk_at(b, int_off, x64, j) != 0
                &&& spec_thunk_at(b, iat_off, x64, n) == 0
                &&& spec_thunk_at(b, int_off, x64, n) == 0
            }
        }),
{
}

/// Every imported function pairs its hint and name as the import-name table
/// dictates: an ordinal-import thunk yields no hint and the synthesized
/// `(Ordinal N)` name, and a name-import thunk yields a present hint.
pub proof fn lemma_import_hints(
    f: ImportFunction,
    b: Seq<u8>,
    sec: SectionHeader,
    x64: bool,
    iat_off: int,
    int_off: int,
    j: int,
)
    requires
        import_function_matches(f, b, sec, x64, iat_off, int_off, j),
    ensures
        ({
            let e = spec_thunk_at(b, int_off, x64, j);
            &&& spec_thunk_is_ordinal(e, x64) ==> f.hint is None && f.name@ == ordinal_name_chars(
                (e % 0x1_0000) as int,
            )
            &&& !spec_thunk_is_ordinal(e, x64) ==> f.hint is Some
        }),
{
}

/// Assembles the container predicate from its three parts.
proof fn lemma_import_container_matches(
    c: ImportContainer,
    b: Seq<u8>,
    sec: SectionHeader,
    x64: bool,
    t: int,
)
    requires
        forall|k: int|
            0 <= k < c.descriptors@.len() ==> #[trigger] spec_descriptor_oft(b, t, k) != 0,
        forall|k: int|
            0 <= k < c.descriptors@.len() ==> import_descriptor_matches(
                #[trigger] c.descriptors@[k],
                b,
                sec,
                x64,
                t + 20 * k,
            ),
        t + 20 * c.descriptors@.len() + 20 <= b.len(),
        le_u32_at(b, t + 20 * c.descriptors@.len()) == 0,
    ensures
        import_container_matches(c, b, sec, x64, t),
{
    let n = c.descriptors@.len() as int;
    assert forall|k: int| 0 <= k < n implies #[trigger] spec_descriptor_oft(b, t, k) != 0 by {}
    assert forall|k: int|
        0 <= k < n implies import_descriptor_matches(
        #[trigger] c.descriptors@[k],
        b,
        sec,
        x64,
        t + 20 * k,
    ) by {}
    assert(t + 20 * n + 20 <= b.len());
    assert(le_u32_at(b, t + 20 * n) == 0);
}

/// The outcome the import parser owes for each image: absent when the
/// directory is empty, the resolved descriptor list when the walk succeeds,
/// and the matching error when the directory cannot be resolved.
pub open spec fn spec_parse_imports(
    b: Seq<u8>,
    x64: bool,
    dirs: Seq<DataDirectory>,
    ss: Seq<SectionHeader>,
    r: Result<Option<ImportContainer>, ParseError>,
) -> bool {
    let dd = dirs[IMAGE_DIRECTORY_ENTRY_IMPORT as int];
    let found = spec_find_section(ss, dd.virtual_address as int);
    &&& dd.size == 0 ==> r == Ok::<Option<ImportContainer>, ParseError>(None)
    &&& r is Err ==> dd.size != 0
    &&& dd.size != 0 && found is None ==> r == Err::<Option<ImportContainer>, ParseError>(
        ParseError::UnresolvableRva { rva: dd.virtual_address },
    )
    &&& dd.size != 0 ==> (found matches Some(si) ==> {
        let sec = ss[si];
        let t = spec_rva_to_file_pointer(dd.virtual_address as int, sec);
        &&& t + dd.size > b.len() ==> r == Err::<Option<ImportContainer>, ParseError>(
            ParseError::DecodeFailure { offset: (t + dd.size) as u64 },
        )
        &&& t + dd.size <= b.len() ==> (r is Ok <==> spec_import_descriptors_ok(b, sec, x64, t))
        &&& r matches Ok(o) ==> o matches Some(c) && import_container_matches(c, b, sec, x64, t)
    })
}

impl ImportContainer {
    /// Looks up data-directory slot one and walks the import descriptors
    /// stored there: each descriptor before the terminator has its module
    /// name resolved and its thunk tables paired into a function list.  The
    /// terminating descriptor, whose original-first-thunk word is zero, is
    /// not emitted.  An absent directory yields `None`.
    #[verifier::rlimit(100)]
    pub fn parse(executable: &Executable) -> (r: Result<Option<ImportContainer>, ParseError>)
        requires
            executable.headers_parsed(),
        ensures
            r matches Err(e) ==> spec_parser_error(e),
            spec_parse_imports(
                executable.buffer@,
                executable.file_header->Some_0.machine == 0x8664,
                executable.spec_data_directories(),
                executable.spec_sections(),
                r,
            ),
    {
        let dd = executable.optional_header.as_ref().unwrap().data_directories()[
            IMAGE_DIRECTORY_ENTRY_IMPORT];
        if dd.size == 0 {
            return Ok(None);
        }
        let resolved = executable.resolve_directory(&dd)?;
        let sections = executable.section_headers.as_ref().unwrap();
        let section = &sections[resolved.0];
        let buffer = executable.buffer();
        let buffer_len = buffer.len();
        let x64 = executable.is_x64();
        let ghost b = executable.buffer@;
        let ghost sec = executable.spec_sections()[resolved.0 as int];
        let ghost t = resolved.1 as int;
        let mut offset: usize = resolved.1;
        let mut vector: Vec<ImportDescriptor> = Vec::new();
        let mut done = false;
        while !done
            invariant
                executable.headers_parsed(),
                b == executable.buffer@,
                b == buffer@,
                buffer_len == b.len(),
                sec == *section,
                x64 == (executable.file_header->Some_0.machine == 0x8664),
                dd == executable.spec_data_directories()[IMAGE_DIRECTORY_ENTRY_IMPORT as int],
                dd.size != 0,
                spec_find_section(executable.spec_sections(), dd.virtual_address as int) == Some(
                    resolved.0 as int,
                ),
                sec == executable.spec_sections()[resolved.0 as int],
                t == resolved.1,
                t == spec_rva_to_file_pointer(dd.virtual_address as int, sec),
                t + dd.size <= b.len(),
                offset == t + 20 * vector@.len(),
                offset <= b.len(),
                forall|k: int|
                    0 <= k < vector@.len() ==> #[trigger] spec_descriptor_oft(b, t, k) != 0
                        && import_descriptor_matches(
                        vector@[k],
                        b,
                        sec,
                        x64,
                        t + 20 * k,
                    ),
                done ==> {
                    let n = vector@.len() as int;
                    &&& t + 20 * n + 20 <= b.len()
                    &&& le_u32_at(b, t + 20 * n) == 0
                },
                !done ==> spec_import_descriptors_ok(b, sec, x64, t)
                    == spec_import_descriptors_ok(b, sec, x64, offset as int),
                done ==> spec_import_descriptors_ok(b, sec, x64, t),
            decreases
                    if done {
                        0int
                    } else {
                        b.len() + 1 - offset
                    },
        {
            if !span_fits(buffer, offset, 20) {
                proof {
                    assert(!spec_import_descriptors_ok(b, sec, x64, offset as int));
                }
                return Err(ParseError::DecodeFailure { offset: offset as u64 });
            }
            let parsed = match parse_one_descriptor(buffer, section, x64, offset) {
                Ok(parsed) => parsed,
                Err(e) => {
                    proof {
                        assert(!spec_import_descriptors_ok(b, sec, x64, offset as int));
                    }
                    return Err(e);
                },
            };
            match parsed {
                Some(descriptor) => {
                    proof {
                        assert(spec_descriptor_oft(b, t, vector@.len() as int) != 0);
                        assert(import_descriptor_matches(descriptor, b, sec, x64, offset as int));
                        assert(spec_import_descriptor_ok(b, sec, x64, offset as int));
                        assert(spec_import_descriptors_ok(b, sec, x64, offset as int)
                            == spec_import_descriptors_ok(b, sec, x64, offset + 20));
                    }
                    vector.push(descriptor);
                    offset = offset + 20;
                },
                None => {
                    proof {
                        assert(spec_import_descriptors_ok(b, sec, x64, offset as int));
                    }
                    done = true;
                },
            }
            proof {
                assert forall|k: int| 0 <= k < vector@.len() implies #[trigger] spec_descriptor_oft(
                    b,
                    t,
                    k,
                ) != 0 && import_descriptor_matches(vector@[k], b, sec, x64, t + 20 * k) by {
                    assert(spec_descriptor_oft(b, t, k) != 0);
                    assert(import_descriptor_matches(vector@[k], b, sec, x64, t + 20 * k));
                }
            }
        }
        proof {
            let n = vector@.len() as int;
            assert(t + 20 * n + 20 <= b.len());
            assert(le_u32_at(b, t + 20 * n) == 0);
            assert forall|k: int| 0 <= k < n implies #[trigger] spec_descriptor_oft(b, t, k) != 0
                && import_descriptor_matches(vector@[k], b, sec, x64, t + 20 * k) by {
                assert(spec_descriptor_oft(b, t, k) != 0);
                assert(import_descriptor_matches(vector@[k], b, sec, x64, t + 20 * k));
            }
        }
        let container = ImportContainer { descriptors: vector };
        proof {
            assert(container.descriptors@ == vector@);
            assert forall|k: int|
                0 <= k < container.descriptors@.len() implies #[trigger] spec_descriptor_oft(
                b,
                t,
                k,
            ) != 0 by {
                assert(spec_descriptor_oft(b, t, k) != 0 && import_descriptor_matches(
                    container.descriptors@[k],
                    b,
                    sec,
                    x64,
                    t + 20 * k,
                ));
            }
            assert forall|k: int|
                0 <= k < container.descriptors@.len() implies import_descriptor_matches(
                #[trigger] container.descriptors@[k],
                b,
                sec,
                x64,
                t + 20 * k,
            ) by {
                assert(spec_descriptor_oft(b, t, k) != 0 && import_descriptor_matches(
                    container.descriptors@[k],
                    b,
                    sec,
                    x64,
                    t + 20 * k,
                ));
            }
            lemma_import_container_matches(container, b, sec, x64, t);
        }
        Ok(Some(container))
    }

    /// The parsed descriptors, in image order.
    pub fn descriptors(&self) -> (r: &Vec<ImportDescriptor>)
        ensures
            r == &self.descriptors,
    {
        &self.descriptors
    }

    /// True when the 32-bit thunk word marks an ordinal import.
    pub fn snap_by_ordinal32(ordinal: u32) -> (r: bool)
        ensures
            r == (ordinal >= 0x8000_0000),
    {
        ordinal >= 0x8000_0000
    }

    /// True when the 64-bit thunk word marks an ordinal import.
    pub fn snap_by_ordinal64(ordinal: u64) -> (r: bool)
        ensures
            r == (ordinal >= 0x8000_0000_0000_0000),
    {
        ordinal >= 0x8000_0000_0000_0000
    }

    /// The ordinal number carried in a 32-bit thunk word.
    pub fn ordinal32(ordinal: u32) -> (r: u32)
        ensures
            r == ordinal % 0x1_0000,
    {
        ordinal % 0x1_0000
    }

    /// The ordinal number carried in a 64-bit thunk word.
    pub fn ordinal64(ordinal: u64) -> (r: u64)
        ensures
            r == ordinal % 0x1_0000,
    {
        ordinal % 0x1_0000
    }
}

/// The thunk entry at index `j` of the table starting at `off`, four bytes
/// wide for PE32 images and eight for PE32+.
pub open spec fn spec_thunk_at(b: Seq<u8>, off: int, x64: bool, j: int) -> u64 {
    if x64 {
        le_u64_at(b, off + 8 * j)
    } else {
        le_u32_at(b, off + 4 * j) as u64
    }
}

/// The width of one thunk entry.
pub open spec fn spec_thunk_width(x64: bool) -> int {
    if x64 {
        8
    } else {
        4
    }
}

/// True when the thunk word marks an ordinal import: its highest bit is set.
pub open spec fn spec_thunk_is_ordinal(e: u64, x64: bool) -> bool {
    if x64 {
        e >= 0x8000_0000_0000_0000
    } else {
        e >= 0x8000_0000
    }
}

/// The name-record RVA carried by a by-name thunk word: its low 31 bits
/// for PE32 images and its low 63 bits for PE32+.
pub open spec fn spec_thunk_name_field(e: u64, x64: bool) -> u64 {
    if x64 {
        e % 0x8000_0000_0000_0000
    } else {
        e % 0x8000_0000
    }
}

/// True when the import-name-table word `e` can be resolved: ordinal
/// imports always can, and a by-name word must carry a genuine 32-bit RVA
/// that lies in `sec`, with room for its hint and a terminated name.
pub open spec fn spec_import_entry_ok(b: Seq<u8>, sec: SectionHeader, x64: bool, e: u64) -> bool {
    !spec_thunk_is_ordinal(e, x64) ==> {
        let nr = spec_thunk_name_field(e, x64);
        let rec = spec_rva_to_file_pointer(nr as int, sec);
        &&& nr <= 0xFFFF_FFFF
        &&& spec_section_contains(sec, nr as int)
        &&& rec + 2 <= b.len()
        &&& first_nul(b, rec + 2) < b.len()
    }
}

/// True when the two thunk tables at file offsets `ia` (addresses) and
/// `na` (names) reach their zero terminators together: every pair before
/// them is readable and non-zero on both sides, every by-name entry
/// resolves, and the terminators themselves fit the buffer.
pub open spec fn spec_thunk_pairs_ok(
    b: Seq<u8>,
    sec: SectionHeader,
    x64: bool,
    ia: int,
    na: int,
) -> bool
    decreases b.len() + 8 - ia,
{
    let w = spec_thunk_width(x64);
    if !(0 <= ia && ia + w <= b.len() && 0 <= na && na + w <= b.len()) {
        false
    } else {
        let a = spec_thunk_at(b, ia, x64, 0);
        let e = spec_thunk_at(b, na, x64, 0);
        if a == 0 && e == 0 {
            true
        } else if a == 0 || e == 0 {
            false
        } else {
            spec_import_entry_ok(b, sec, x64, e) && spec_thunk_pairs_ok(b, sec, x64, ia + w, na + w)
        }
    }
}

/// True when `f` is exactly the function described by the thunk pair at
/// index `j` of the two tables: the address comes from the import-address
/// table, and the hint and name from the import-name table, either
/// synthesized from the ordinal or resolved through `section`.
pub open spec fn import_function_matches(
    f: ImportFunction,
    b: Seq<u8>,
    section: SectionHeader,
    x64: bool,
    iat_off: int,
    int_off: int,
    j: int,
) -> bool {
    let e = spec_thunk_at(b, int_off, x64, j);
    &&& f.address == spec_thunk_at(b, iat_off, x64, j)
    &&& if spec_thunk_is_ordinal(e, x64) {
        &&& f.hint is None
        &&& f.name@ == ordinal_name_chars((e % 0x1_0000) as int)
    } else {
        let nr = spec_thunk_name_field(e, x64);
        let rec = spec_rva_to_file_pointer(nr as int, section);
        &&& nr <= 0xFFFF_FFFF
        &&& f.hint == Some(le_u16_at(b, rec))
        &&& f.name@ == str_at(b, rec + 2)
    }
}

/// The original-first-thunk word of descriptor `k` of the table starting
/// at file offset `t`: the word that terminates the walk when zero.
pub open spec fn spec_descriptor_oft(b: Seq<u8>, t: int, k: int) -> u32 {
    le_u32_at(b, t + 20 * k)
}

/// True when `d` is exactly the descriptor stored at `off`, its name and
/// function list resolved through `section`: the two thunk tables hold `n`
/// non-zero entries followed by their zero terminators, and the function
/// list pairs them index by index.
pub open spec fn import_descriptor_matches(
    d: ImportDescriptor,
    b: Seq<u8>,
    section: SectionHeader,
    x64: bool,
    off: int,
) -> bool {
    let w = spec_thunk_width(x64);
    let iat_off = spec_rva_to_file_pointer(le_u32_at(b, off + 16) as int, section);
    let int_off = spec_rva_to_file_pointer(le_u32_at(b, off) as int, section);
    &&& d.characteristics == le_u32_at(b, off)
    &&& d.time_date_stamp == le_u32_at(b, off + 4)
    &&& d.forwarder_chain == le_u32_at(b, off + 8)
    &&& d.address_of_name == le_u32_at(b, off + 12)
    &&& d.first_thunk == le_u32_at(b, off + 16)
    &&& d.name@ == str_at(b, spec_rva_to_file_pointer(le_u32_at(b, off + 12) as int, section))
    &&& d.functions matches Some(fs) && {
        let n = fs@.len() as int;
        &&& forall|j: int| 0 <= j < n ==> spec_thunk_at(b, iat_off, x64, j) != 0
        &&& forall|j: int| 0 <= j < n ==> spec_thunk_at(b, int_off, x64, j) != 0
        &&& spec_thunk_at(b, iat_off, x64, n) == 0
        &&& spec_thunk_at(b, int_off, x64, n) == 0
        &&& iat_off + w * n + w <= b.len()
        &&& int_off + w * n + w <= b.len()
        &&& forall|j: int|
            0 <= j < n ==> import_function_matches(fs@[j], b, section, x64, iat_off, int_off, j)
    }
}

} // verus!
