//! The resolved export directory: the table header and the list of exported
//! functions with their names and absolute ordinals.
use vstd::prelude::*;

use crate::constant::IMAGE_DIRECTORY_ENTRY_EXPORT;
use crate::data_directory::DataDirectory;
use crate::error::{spec_parser_error, ParseError};
use crate::executable::{spec_find_section, Executable};
use crate::export_directory::{export_directory_matches, ExportDirectory};
use crate::reader::{first_nul, get_u16, get_u32, le_u16_at, le_u32_at, ordinal_name,
    ordinal_name_chars, read_string, span_fits, str_at};
use crate::section_header::{resolve_rva, spec_rva_to_file_pointer, spec_section_contains,
    SectionHeader};

verus! {

/// The RVA of entry `i` of a table starting at `base` whose entries are
/// `scale` bytes wide, with the index arithmetic wrapping as 32-bit
/// arithmetic does.
pub open spec fn spec_rva_index(base: u32, scale: int, i: int) -> u32 {
    ((base + scale * i) % 0x1_0000_0000) as u32
}

/// Computes the RVA of table entry `i`, wrapping like 32-bit arithmetic.
pub fn rva_index(base: u32, scale: u32, i: u32) -> (r: u32)
    requires
        scale <= 8,
    ensures
        r == spec_rva_index(base, scale as int, i as int),
{
    proof {
        assert(scale as u64 * i as u64 <= 8 * 0xFFFF_FFFFu64) by (nonlinear_arith)
            requires
                scale <= 8,
                i <= 0xFFFF_FFFFu32,
        ;
    }
    ((base as u64 + scale as u64 * i as u64) % 0x1_0000_0000) as u32
}

/// The name-ordinal-table entry `i`: the export-table index that name `i`
/// belongs to.
pub open spec fn export_ord_at(b: Seq<u8>, sec: SectionHeader, d: ExportDirectory, i: int) -> u16 {
    le_u16_at(
        b,
        spec_rva_to_file_pointer(spec_rva_index(d.address_of_name_ordinals, 2, i) as int, sec),
    )
}

/// The name-pointer-table entry `i`: the RVA of name `i`.
pub open spec fn export_name_rva_at(
    b: Seq<u8>,
    sec: SectionHeader,
    d: ExportDirectory,
    i: int,
) -> u32 {
    le_u32_at(b, spec_rva_to_file_pointer(spec_rva_index(d.address_of_names, 4, i) as int, sec))
}

/// Name `i` of the export name table.
pub open spec fn export_name_at(
    b: Seq<u8>,
    sec: SectionHeader,
    d: ExportDirectory,
    i: int,
) -> Seq<char> {
    str_at(b, spec_rva_to_file_pointer(export_name_rva_at(b, sec, d, i) as int, sec))
}

/// The export-address-table entry `i`: the RVA of export slot `i`.
pub open spec fn export_fun_rva_at(
    b: Seq<u8>,
    sec: SectionHeader,
    d: ExportDirectory,
    i: int,
) -> u32 {
    le_u32_at(b, spec_rva_to_file_pointer(spec_rva_index(d.address_of_functions, 4, i) as int, sec))
}

/// The position of the last name-table entry before `n` whose ordinal word
/// equals `key`, if any: later entries shadow earlier ones.
pub open spec fn spec_last_name_entry(
    b: Seq<u8>,
    sec: SectionHeader,
    d: ExportDirectory,
    key: int,
    n: int,
) -> Option<int>
    decreases n,
{
    if n <= 0 {
        None
    } else if export_ord_at(b, sec, d, n - 1) == key {
        Some(n - 1)
    } else {
        spec_last_name_entry(b, sec, d, key, n - 1)
    }
}

/// True when entry `i` of the export name tables can be read: its ordinal
/// word and name pointer lie in the section with room to read them, and the
/// name they point at lies in the section and terminates.
pub open spec fn export_name_entry_ok(b: Seq<u8>, sec: SectionHeader, aono: u32, aon: u32, i: int) -> bool {
    let ord_rva = spec_rva_index(aono, 2, i);
    let ptr_rva = spec_rva_index(aon, 4, i);
    let name_rva = le_u32_at(b, spec_rva_to_file_pointer(ptr_rva as int, sec));
    &&& spec_section_contains(sec, ord_rva as int)
    &&& spec_rva_to_file_pointer(ord_rva as int, sec) + 2 <= b.len()
    &&& spec_section_contains(sec, ptr_rva as int)
    &&& spec_rva_to_file_pointer(ptr_rva as int, sec) + 4 <= b.len()
    &&& spec_section_contains(sec, name_rva as int)
    &&& first_nul(b, spec_rva_to_file_pointer(name_rva as int, sec)) < b.len()
}

/// True when slot `i` of the export-address table can be read: its entry
/// lies in the section with room for the four bytes.
pub open spec fn export_fun_entry_ok(b: Seq<u8>, sec: SectionHeader, aof: u32, i: int) -> bool {
    let rva = spec_rva_index(aof, 4, i);
    &&& spec_section_contains(sec, rva as int)
    &&& spec_rva_to_file_pointer(rva as int, sec) + 4 <= b.len()
}

/// True when the export directory stored at `t` parses whole: the 40-byte
/// record fits, the module name resolves and terminates, and — when the
/// directory declares function slots — every name-table entry and every
/// address-table slot can be read.
pub open spec fn spec_export_ok(b: Seq<u8>, sec: SectionHeader, t: int) -> bool {
    &&& t + 40 <= b.len()
    &&& spec_section_contains(sec, le_u32_at(b, t + 12) as int)
    &&& first_nul(b, spec_rva_to_file_pointer(le_u32_at(b, t + 12) as int, sec)) < b.len()
    &&& le_u32_at(b, t + 20) != 0 ==> {
        &&& forall|i: int|
            0 <= i < le_u32_at(b, t + 24) ==> #[trigger] export_name_entry_ok(
                b,
                sec,
                le_u32_at(b, t + 36),
                le_u32_at(b, t + 32),
                i,
            )
        &&& forall|i: int|
            0 <= i < le_u32_at(b, t + 20) ==> #[trigger] export_fun_entry_ok(
                b,
                sec,
                le_u32_at(b, t + 28),
                i,
            )
    }
}

/// The absolute ordinal of export slot `i`: the directory base plus the
/// slot index, in wrapping 32-bit arithmetic.
pub open spec fn spec_export_ordinal(d: ExportDirectory, i: int) -> u32 {
    ((d.base + i) % 0x1_0000_0000) as u32
}

/// True when `f` is exactly export slot `i`: its RVA from the address
/// table, its ordinal the directory base plus `i` in wrapping 32-bit
/// arithmetic, and its name the last table name mapped to index `i`, or the
/// synthesized ordinal name when no table entry maps to it.
pub open spec fn export_function_matches(
    f: ExportFunction,
    b: Seq<u8>,
    sec: SectionHeader,
    d: ExportDirectory,
    i: int,
) -> bool {
    let ord = spec_export_ordinal(d, i);
    &&& f.function == export_fun_rva_at(b, sec, d, i)
    &&& f.ordinal == ord
    &&& match spec_last_name_entry(b, sec, d, i % 0x1_0000, d.number_of_names as int) {
        Some(j) => f.name@ == export_name_at(b, sec, d, j),
        None => f.name@ == ordinal_name_chars(ord as int),
    }
}

/// The slots among `0 .. n` whose export-address-table entry is non-zero,
/// in slot order: exactly the slots the export list keeps.
pub open spec fn spec_kept_slots(b: Seq<u8>, sec: SectionHeader, d: ExportDirectory, n: int) -> Seq<
    int,
>
    decreases n,
{
    if n <= 0 {
        Seq::empty()
    } else if export_fun_rva_at(b, sec, d, n - 1) != 0 {
        spec_kept_slots(b, sec, d, n - 1).push(n - 1)
    } else {
        spec_kept_slots(b, sec, d, n - 1)
    }
}

/// The kept slots all lie in `0 .. n`, in strictly increasing order, each
/// with a non-zero export-address-table entry, and every slot of `0 .. n`
/// with a non-zero entry is among them.
pub proof fn lemma_kept_slots_properties(b: Seq<u8>, sec: SectionHeader, d: ExportDirectory, n: int)
    requires
        0 <= n,
    ensures
        ({
            let idx = spec_kept_slots(b, sec, d, n);
            &&& idx.len() <= n
            &&& forall|k: int| 0 <= k < idx.len() ==> 0 <= #[trigger] idx[k] < n
            &&& forall|k1: int, k2: int|
                0 <= k1 < k2 < idx.len() ==> #[trigger] idx[k1] < #[trigger] idx[k2]
            &&& forall|k: int|
                0 <= k < idx.len() ==> export_fun_rva_at(b, sec, d, #[trigger] idx[k]) != 0
            &&& forall|i: int|
                0 <= i < n && #[trigger] export_fun_rva_at(b, sec, d, i) != 0 ==> idx.contains(i)
        }),
    decreases n,
{
    if n > 0 {
        lemma_kept_slots_properties(b, sec, d, n - 1);
        let prev = spec_kept_slots(b, sec, d, n - 1);
        let idx = spec_kept_slots(b, sec, d, n);
        assert forall|k: int| 0 <= k < idx.len() implies 0 <= #[trigger] idx[k] < n by {
            if k < prev.len() {
                assert(idx[k] == prev[k]);
            }
        }
        assert forall|k1: int, k2: int| 0 <= k1 < k2 < idx.len() implies #[trigger] idx[k1]
            < #[trigger] idx[k2] by {
            if k2 < prev.len() {
                assert(idx[k1] == prev[k1] && idx[k2] == prev[k2]);
            } else if k2 == prev.len() {
                assert(idx[k1] == prev[k1] && prev[k1] < n - 1);
            }
        }
        assert forall|k: int| 0 <= k < idx.len() implies export_fun_rva_at(
            b,
            sec,
            d,
            #[trigger] idx[k],
        ) != 0 by {
            if k < prev.len() {
                assert(idx[k] == prev[k]);
            }
        }
        assert forall|i: int|
            0 <= i < n && #[trigger] export_fun_rva_at(b, sec, d, i) != 0 implies idx.contains(
            i,
        ) by {
            if i < n - 1 {
                assert(prev.contains(i));
                let k = choose|k: int| 0 <= k < prev.len() && prev[k] == i;
                assert(idx[k] == i);
            } else {
                assert(export_fun_rva_at(b, sec, d, n - 1) != 0);
                assert(idx[idx.len() - 1] == i);
            }
        }
    }
}

/// True when `fs` lists exactly the export slots with a non-zero RVA, in
/// slot order, each element matching its slot.
pub open spec fn export_functions_correspond(
    fs: Seq<ExportFunction>,
    b: Seq<u8>,
    sec: SectionHeader,
    d: ExportDirectory,
) -> bool {
    let idx = spec_kept_slots(b, sec, d, d.number_of_functions as int);
    &&& fs.len() == idx.len()
    &&& forall|k: int|
        0 <= k < fs.len() ==> export_function_matches(fs[k], b, sec, d, #[trigger] idx[k])
}

/// Every exported function's ordinal is the directory base plus some slot
/// index below the declared function count, in wrapping 32-bit arithmetic.
pub proof fn lemma_export_ordinals(
    fs: Seq<ExportFunction>,
    b: Seq<u8>,
    sec: SectionHeader,
    d: ExportDirectory,
)
    requires
        export_functions_correspond(fs, b, sec, d),
    ensures
        forall|k: int|
            0 <= k < fs.len() ==> exists|i: int|
                0 <= i < d.number_of_functions && (#[trigger] fs[k]).ordinal
                    == #[trigger] spec_export_ordinal(d, i),
{
    let idx = spec_kept_slots(b, sec, d, d.number_of_functions as int);
    lemma_kept_slots_properties(b, sec, d, d.number_of_functions as int);
    assert forall|k: int| 0 <= k < fs.len() implies exists|i: int|
        0 <= i < d.number_of_functions && (#[trigger] fs[k]).ordinal == #[trigger] spec_export_ordinal(
            d,
            i,
        ) by {
        assert(export_function_matches(fs[k], b, sec, d, idx[k]));
        assert(0 <= idx[k] < d.number_of_functions && fs[k].ordinal == spec_export_ordinal(
            d,
            idx[k],
        ));
    }
}

/// Skipping name-table entries whose ordinal word differs from `key` does
/// not move the last match.
proof fn lemma_last_name_entry_skip(
    b: Seq<u8>,
    sec: SectionHeader,
    d: ExportDirectory,
    key: int,
    j: int,
    n: int,
)
    requires
        0 <= j <= n,
        forall|m: int| j <= m < n ==> export_ord_at(b, sec, d, m) != key,
    ensures
        spec_last_name_entry(b, sec, d, key, n) == spec_last_name_entry(b, sec, d, key, j),
    decreases n - j,
{
    if j < n {
        lemma_last_name_entry_skip(b, sec, d, key, j, n - 1);
    }
}

/// One exported function: its resolved or synthesized name, its absolute
/// ordinal, and the RVA stored in its export-address-table slot.
#[derive(Clone, Debug)]
pub struct ExportFunction {
    pub name: String,
    pub ordinal: u32,
    pub function: u32,
}

impl ExportFunction {
    /// The RVA stored in the function's export slot.
    pub fn function(&self) -> (r: u32)
        ensures
            r == self.function,
    {
        self.function
    }

    /// The export name, or `(Ordinal N)` when the slot has no name entry.
    pub fn name(&self) -> (r: &str)
        ensures
            r@ == self.name@,
    {
        self.name.as_str()
    }

    /// The absolute ordinal: the directory base plus the slot index.
    pub fn ordinal(&self) -> (r: u32)
        ensures
            r == self.ordinal,
    {
        self.ordinal
    }
}

/// The parsed export directory and its functions.  `functions` is absent
/// when the directory declares no function slots.
#[derive(Clone, Debug)]
pub struct ExportContainer {
    pub directory: ExportDirectory,
    pub functions: Option<Vec<ExportFunction>>,
}

/// Finds the last table entry whose ordinal word equals `key`.
fn lookup_name(table: &Vec<(u16, String)>, key: u16) -> (r: Option<usize>)
    ensures
        r matches Some(j) ==> j < table@.len() && table@[j as int].0 == key && forall|m: int|
            j < m < table@.len() ==> (#[trigger] table@[m].0) != key,
        r is None ==> forall|m: int| 0 <= m < table@.len() ==> (#[trigger] table@[m].0) != key,
{
    let mut j = table.len();
    while j > 0
        invariant
            j <= table@.len(),
            forall|m: int| j <= m < table@.len() ==> (#[trigger] table@[m].0) != key,
        decreases j,
    {
        j = j - 1;
        if table[j].0 == key {
            return Some(j);
        }
    }
    None
}

/// Resolves the name of export slot `key` against the ordinal-to-name
/// table: the last table entry mapped to the slot wins, and a slot with no
/// entry has no table name.
fn find_export_name(
    table: &Vec<(u16, String)>,
    key: u16,
    Ghost(b): Ghost<Seq<u8>>,
    Ghost(sec): Ghost<SectionHeader>,
    Ghost(d): Ghost<ExportDirectory>,
) -> (r: Option<String>)
    requires
        table@.len() == d.number_of_names,
        forall|j: int|
            0 <= j < table@.len() ==> (#[trigger] table@[j]).0 == export_ord_at(b, sec, d, j)
                && table@[j].1@ == export_name_at(b, sec, d, j),
    ensures
        match spec_last_name_entry(b, sec, d, key as int, d.number_of_names as int) {
            Some(j) => r matches Some(s) && s@ == export_name_at(b, sec, d, j),
            None => r is None,
        },
{
    let n = table.len();
    match lookup_name(table, key) {
        Some(j) => {
            proof {
                assert forall|m: int| j + 1 <= m < n implies export_ord_at(b, sec, d, m)
                    != key as int by {
                    assert(table@[m].0 != key);
                }
                lemma_last_name_entry_skip(b, sec, d, key as int, j + 1, n as int);
                assert(export_ord_at(b, sec, d, j as int) == key as int);
            }
            Some(table[j].1.clone())
        },
        None => {
            proof {
                assert forall|m: int| 0 <= m < n implies export_ord_at(b, sec, d, m)
                    != key as int by {
                    assert(table@[m].0 != key);
                }
                lemma_last_name_entry_skip(b, sec, d, key as int, 0, n as int);
            }
            None
        },
    }
}

/// Parses export slot `i`: reads its RVA from the export-address table and,
/// for a used slot, builds the exported function with its resolved or
/// synthesized name.  Unused slots, whose RVA is zero, yield `None`.
fn parse_export_slot(
    buffer: &[u8],
    section: &SectionHeader,
    table: &Vec<(u16, String)>,
    directory: &ExportDirectory,
    i: u32,
) -> (r: Result<Option<ExportFunction>, ParseError>)
    requires
        table@.len() == directory.number_of_names,
        forall|j: int|
            0 <= j < table@.len() ==> (#[trigger] table@[j]).0 == export_ord_at(
                buffer@,
                *section,
                *directory,
                j,
            ) && table@[j].1@ == export_name_at(buffer@, *section, *directory, j),
    ensures
        r matches Err(e) ==> spec_parser_error(e),
        r is Ok <==> export_fun_entry_ok(buffer@, *section, directory.address_of_functions, i as int),
        r matches Ok(o) ==> {
            &&& (o is None <==> export_fun_rva_at(buffer@, *section, *directory, i as int) == 0)
            &&& (o matches Some(f) ==> export_function_matches(
                f,
                buffer@,
                *section,
                *directory,
                i as int,
            ))
        },
{
    let ghost b = buffer@;
    let ghost sec = *section;
    let ghost d = *directory;
    let fun_off = resolve_rva(buffer, rva_index(directory.address_of_functions, 4, i), section)?;
    if !span_fits(buffer, fun_off, 4) {
        return Err(ParseError::DecodeFailure { offset: fun_off as u64 });
    }
    let function = get_u32(buffer, fun_off);
    if function == 0 {
        return Ok(None);
    }
    let ord = ((directory.base as u64 + i as u64) % 0x1_0000_0000) as u32;
    let key = (i % 0x1_0000) as u16;
    let name = match find_export_name(table, key, Ghost(b), Ghost(sec), Ghost(d)) {
        Some(s) => s,
        None => ordinal_name(ord as u64),
    };
    Ok(Some(ExportFunction { name, ordinal: ord, function }))
}

/// The outcome the export parser owes for each image: absent when the
/// directory is empty, the resolved directory and function list when it
/// parses, and the matching error when the directory cannot be resolved.
pub open spec fn spec_parse_exports(
    b: Seq<u8>,
    dirs: Seq<DataDirectory>,
    ss: Seq<SectionHeader>,
    r: Result<Option<ExportContainer>, ParseError>,
) -> bool {
    let dd = dirs[IMAGE_DIRECTORY_ENTRY_EXPORT as int];
    let found = spec_find_section(ss, dd.virtual_address as int);
    &&& dd.size == 0 ==> r == Ok::<Option<ExportContainer>, ParseError>(None)
    &&& r is Err ==> dd.size != 0
    &&& dd.size != 0 && found is None ==> r == Err::<Option<ExportContainer>, ParseError>(
        ParseError::UnresolvableRva { rva: dd.virtual_address },
    )
    &&& dd.size != 0 ==> (found matches Some(si) ==> {
        let sec = ss[si];
        let t = spec_rva_to_file_pointer(dd.virtual_address as int, sec);
        &&& t + dd.size > b.len() ==> r == Err::<Option<ExportContainer>, ParseError>(
            ParseError::DecodeFailure { offset: (t + dd.size) as u64 },
        )
        &&& t + dd.size <= b.len() ==> (r is Ok <==> spec_export_ok(b, sec, t))
        &&& r matches Ok(o) ==> o matches Some(c) && export_container_matches(c, b, sec, t)
    })
}

/// True when `c` holds the export directory stored at file offset `t` and
/// exactly the functions its table keeps.
pub open spec fn export_container_matches(
    c: ExportContainer,
    b: Seq<u8>,
    sec: SectionHeader,
    t: int,
) -> bool {
    &&& export_directory_matches(c.directory, b, t, sec)
    &&& c.directory.number_of_functions == 0 ==> c.functions is None
    &&& c.directory.number_of_functions != 0 ==> (c.functions matches Some(fs)
        && export_functions_correspond(fs@, b, sec, c.directory))
}

impl ExportContainer {
    /// Looks up data-directory slot zero, decodes the export directory
    /// there, builds the ordinal-to-name table, and lists every export slot
    /// with a non-zero RVA.  An absent directory yields `None`.
    #[verifier::rlimit(100)]
    pub fn parse(executable: &Executable) -> (r: Result<Option<ExportContainer>, ParseError>)
        requires
            executable.headers_parsed(),
        ensures
            r matches Err(e) ==> spec_parser_error(e),
            spec_parse_exports(
                executable.buffer@,
                executable.spec_data_directories(),
                executable.spec_sections(),
                r,
            ),
    {
        let dd = executable.optional_header.as_ref().unwrap().data_directories()[
            IMAGE_DIRECTORY_ENTRY_EXPORT];
        if dd.size == 0 {
            return Ok(None);
        }
        let resolved = executable.resolve_directory(&dd)?;
        let sections = executable.section_headers.as_ref().unwrap();
        let section = &sections[resolved.0];
        let buffer = executable.buffer();
        let buffer_len = buffer.len();
        let ghost b = executable.buffer@;
        let ghost sec = executable.spec_sections()[resolved.0 as int];
        let ghost t = resolved.1 as int;
        let directory = match ExportDirectory::parse(buffer, section, resolved.1) {
            Ok(directory) => directory,
            Err(e) => {
                proof {
                    assert(!spec_export_ok(b, sec, t));
                }
                return Err(e);
            },
        };
        let ghost d = directory;
        if directory.number_of_functions == 0 {
            proof {
                assert(spec_export_ok(b, sec, t));
            }
            return Ok(Some(ExportContainer { directory, functions: None }));
        }
        // Ordinal-to-name table: entry i maps the export-table index stored
        // in the ordinal table to name i.
        let n_names = directory.number_of_names;
        let mut table: Vec<(u16, String)> = Vec::new();
        let mut i: u32 = 0;
        while i < n_names
            invariant
                i <= n_names,
                executable.headers_parsed(),
                b == executable.buffer@,
                b == buffer@,
                buffer_len == b.len(),
                sec == *section,
                d == directory,
                dd == executable.spec_data_directories()[IMAGE_DIRECTORY_ENTRY_EXPORT as int],
                dd.size != 0,
                spec_find_section(executable.spec_sections(), dd.virtual_address as int) == Some(
                    resolved.0 as int,
                ),
                sec == executable.spec_sections()[resolved.0 as int],
                t == resolved.1,
                t == spec_rva_to_file_pointer(dd.virtual_address as int, sec),
                t + dd.size <= b.len(),
                export_directory_matches(d, b, t, sec),
                t + 40 <= b.len(),
                spec_section_contains(sec, le_u32_at(b, t + 12) as int),
                first_nul(b, spec_rva_to_file_pointer(le_u32_at(b, t + 12) as int, sec)) < b.len(),
                d.number_of_functions != 0,
                n_names == d.number_of_names,
                table@.len() == i,
                forall|j: int|
                    0 <= j < i ==> #[trigger] export_name_entry_ok(
                        b,
                        sec,
                        le_u32_at(b, t + 36),
                        le_u32_at(b, t + 32),
                        j,
                    ),
                forall|j: int|
                    0 <= j < i ==> (#[trigger] table@[j]).0 == export_ord_at(b, sec, d, j)
                        && table@[j].1@ == export_name_at(b, sec, d, j),
            decreases n_names - i,
        {
            let ord_off = match resolve_rva(
                buffer,
                rva_index(directory.address_of_name_ordinals, 2, i),
                section,
            ) {
                Ok(ord_off) => ord_off,
                Err(e) => {
                    proof {
                        assert(!export_name_entry_ok(
                            b,
                            sec,
                            le_u32_at(b, t + 36),
                            le_u32_at(b, t + 32),
                            i as int,
                        ));
                        assert(!spec_export_ok(b, sec, t));
                    }
                    return Err(e);
                },
            };
            if !span_fits(buffer, ord_off, 2) {
                proof {
                    assert(!export_name_entry_ok(
                        b,
                        sec,
                        le_u32_at(b, t + 36),
                        le_u32_at(b, t + 32),
                        i as int,
                    ));
                    assert(!spec_export_ok(b, sec, t));
                }
                return Err(ParseError::DecodeFailure { offset: ord_off as u64 });
            }
            let ordinal = get_u16(buffer, ord_off);
            let name_ptr_off = match resolve_rva(
                buffer,
                rva_index(directory.address_of_names, 4, i),
                section,
            ) {
                Ok(name_ptr_off) => name_ptr_off,
                Err(e) => {
                    proof {
                        assert(!export_name_entry_ok(
                            b,
                            sec,
                            le_u32_at(b, t + 36),
                            le_u32_at(b, t + 32),
                            i as int,
                        ));
                        assert(!spec_export_ok(b, sec, t));
                    }
                    return Err(e);
                },
            };
            if !span_fits(buffer, name_ptr_off, 4) {
                proof {
                    assert(!export_name_entry_ok(
                        b,
                        sec,
                        le_u32_at(b, t + 36),
                        le_u32_at(b, t + 32),
                        i as int,
                    ));
                    assert(!spec_export_ok(b, sec, t));
                }
                return Err(ParseError::DecodeFailure { offset: name_ptr_off as u64 });
            }
            let name_ptr = get_u32(buffer, name_ptr_off);
            let name_off = match resolve_rva(buffer, name_ptr, section) {
                Ok(name_off) => name_off,
                Err(e) => {
                    proof {
                        assert(!export_name_entry_ok(
                            b,
                            sec,
                            le_u32_at(b, t + 36),
                            le_u32_at(b, t + 32),
                            i as int,
                        ));
                        assert(!spec_export_ok(b, sec, t));
                    }
                    return Err(e);
                },
            };
            let name = match read_string(buffer, name_off) {
                Ok(name) => name,
                Err(e) => {
                    proof {
                        assert(!export_name_entry_ok(
                            b,
                            sec,
                            le_u32_at(b, t + 36),
                            le_u32_at(b, t + 32),
                            i as int,
                        ));
                        assert(!spec_export_ok(b, sec, t));
                    }
                    return Err(e);
                },
            };
            proof {
                assert(export_name_entry_ok(
                    b,
                    sec,
                    le_u32_at(b, t + 36),
                    le_u32_at(b, t + 32),
                    i as int,
                ));
            }
            table.push((ordinal, name));
            i = i + 1;
        }
        // Export-address table: one function per slot with a non-zero RVA.
        let n_functions = directory.number_of_functions;
        let mut vector: Vec<ExportFunction> = Vec::new();
        let mut i: u32 = 0;
        while i < n_functions
            invariant
                i <= n_functions,
                executable.headers_parsed(),
                b == executable.buffer@,
                b == buffer@,
                buffer_len == b.len(),
                sec == *section,
                d == directory,
                dd == executable.spec_data_directories()[IMAGE_DIRECTORY_ENTRY_EXPORT as int],
                dd.size != 0,
                spec_find_section(executable.spec_sections(), dd.virtual_address as int) == Some(
                    resolved.0 as int,
                ),
                sec == executable.spec_sections()[resolved.0 as int],
                t == resolved.1,
                t == spec_rva_to_file_pointer(dd.virtual_address as int, sec),
                t + dd.size <= b.len(),
                export_directory_matches(d, b, t, sec),
                t + 40 <= b.len(),
                spec_section_contains(sec, le_u32_at(b, t + 12) as int),
                first_nul(b, spec_rva_to_file_pointer(le_u32_at(b, t + 12) as int, sec)) < b.len(),
                d.number_of_functions != 0,
                n_functions == d.number_of_functions,
                table@.len() == d.number_of_names,
                forall|j: int|
                    0 <= j < d.number_of_names ==> #[trigger] export_name_entry_ok(
                        b,
                        sec,
                        le_u32_at(b, t + 36),
                        le_u32_at(b, t + 32),
                        j,
                    ),
                forall|j: int|
                    0 <= j < i ==> #[trigger] export_fun_entry_ok(
                        b,
                        sec,
                        le_u32_at(b, t + 28),
                        j,
                    ),
                forall|j: int|
                    0 <= j < table@.len() ==> (#[trigger] table@[j]).0 == export_ord_at(b, sec, d, j)
                        && table@[j].1@ == export_name_at(b, sec, d, j),
                vector@.len() == spec_kept_slots(b, sec, d, i as int).len(),
                forall|k: int|
                    0 <= k < vector@.len() ==> export_function_matches(
                        vector@[k],
                        b,
                        sec,
                        d,
                        #[trigger] spec_kept_slots(b, sec, d, i as int)[k],
                    ),
            decreases n_functions - i,
        {
            let slot = match parse_export_slot(buffer, section, &table, &directory, i) {
                Ok(slot) => slot,
                Err(e) => {
                    proof {
                        assert(!export_fun_entry_ok(b, sec, le_u32_at(b, t + 28), i as int));
                        assert(!spec_export_ok(b, sec, t));
                    }
                    return Err(e);
                },
            };
            proof {
                assert(export_fun_entry_ok(b, sec, le_u32_at(b, t + 28), i as int));
            }
            proof {
                assert(spec_kept_slots(b, sec, d, i + 1) == if export_fun_rva_at(b, sec, d, i as int)
                    != 0 {
                    spec_kept_slots(b, sec, d, i as int).push(i as int)
                } else {
                    spec_kept_slots(b, sec, d, i as int)
                });
            }
            if let Some(f) = slot {
                vector.push(f);
            }
            i = i + 1;
        }
        proof {
            assert(export_functions_correspond(vector@, b, sec, d));
            assert(spec_export_ok(b, sec, t));
        }
        Ok(Some(ExportContainer { directory, functions: Some(vector) }))
    }

    /// The decoded directory header.
    pub fn directory(&self) -> (r: &ExportDirectory)
        ensures
            r == &self.directory,
    {
        &self.directory
    }

    /// The exported functions, absent when the directory declares none.
    pub fn functions(&self) -> (r: Option<&Vec<ExportFunction>>)
        ensures
            r matches Some(v) ==> self.functions matches Some(w) && v == &w,
            r is None <==> self.functions is None,
    {
        self.functions.as_ref()
    }
}

} // verus!
