//! The image aggregate: it owns the byte buffer, holds the parsed headers
//! and directories, and answers RVA-resolution queries for the directory
//! parsers.
use vstd::prelude::*;

use crate::com_descriptor::ComDescriptor;
use crate::cor20_header::{spec_parse_cor20, Cor20Header};
use crate::data_directory::DataDirectory;
use crate::debug_container::{spec_debug_ok, spec_parse_debug, DebugContainer};
use crate::dos_header::DosHeader;
use crate::error::{spec_parser_error, ParseError};
use crate::export_container::{spec_export_ok, spec_parse_exports, ExportContainer};
use crate::file_header::{spec_file_header, spec_file_header_zero, FileHeader};
use crate::import_container::{spec_import_descriptors_ok, spec_parse_imports, ImportContainer};
use crate::load_config_container::{spec_parse_load_config, LoadConfigContainer};
use crate::optional_header::{optional_header_matches, spec_optional_header_size, OptionalHeader,
    X64_MACHINE};
use crate::reader::{le_i32_at, le_u16_at, le_u32_at};
use crate::section_header::{lemma_section_containment_antisymmetric, section_header_matches,
    sections_disjoint, spec_rva_to_file_pointer, spec_section_contains, SectionHeader};

verus! {

/// A portable-executable image: the buffer it was read from, and every
/// record parsed out of it.  Constructed with the headers and directories
/// absent; `parse` fills them.
#[derive(Debug)]
pub struct Executable {
    pub path: String,
    pub buffer: Vec<u8>,
    pub dos_header: Option<DosHeader>,
    pub file_header: Option<FileHeader>,
    pub optional_header: Option<OptionalHeader>,
    pub section_headers: Option<Vec<SectionHeader>>,
    pub export_data: Option<ExportContainer>,
    pub import_data: Option<ImportContainer>,
    pub debug_data: Option<Vec<DebugContainer>>,
    pub load_config_data: Option<LoadConfigContainer>,
    pub com_descriptor_data: Option<ComDescriptor>,
}

/// The first section of `ss`, at or after position `i`, that contains `rva`.
pub open spec fn spec_find_section_from(ss: Seq<SectionHeader>, rva: int, i: int) -> Option<int>
    decreases ss.len() - i,
{
    if i < 0 || i >= ss.len() {
        None
    } else if spec_section_contains(ss[i], rva) {
        Some(i)
    } else {
        spec_find_section_from(ss, rva, i + 1)
    }
}

/// The first section of `ss` that contains `rva`.
pub open spec fn spec_find_section(ss: Seq<SectionHeader>, rva: int) -> Option<int> {
    spec_find_section_from(ss, rva, 0)
}

/// A found section contains the RVA that was searched for.
proof fn lemma_find_section_from_contains(ss: Seq<SectionHeader>, rva: int, i: int, j: int)
    requires
        spec_find_section_from(ss, rva, i) == Some(j),
        0 <= i,
    ensures
        i <= j < ss.len(),
        spec_section_contains(ss[j], rva),
    decreases ss.len() - i,
{
    if i < ss.len() && !spec_section_contains(ss[i], rva) {
        lemma_find_section_from_contains(ss, rva, i + 1, j);
    }
}

/// Resolution picks the one section that contains the RVA: in an image
/// whose sections do not overlap, the section the resolver returns contains
/// the RVA, and no other section does.
pub proof fn lemma_resolution_unique(ss: Seq<SectionHeader>, rva: int, i: int)
    requires
        sections_disjoint(ss),
        spec_find_section(ss, rva) == Some(i),
    ensures
        0 <= i < ss.len(),
        spec_section_contains(ss[i], rva),
        forall|j: int|
            0 <= j < ss.len() && spec_section_contains(#[trigger] ss[j], rva) ==> j == i,
{
    lemma_find_section_from_contains(ss, rva, 0, i);
    assert forall|j: int|
        0 <= j < ss.len() && spec_section_contains(#[trigger] ss[j], rva) implies j == i by {
        lemma_section_containment_antisymmetric(ss, rva, i, j);
    }
}

/// Scanning over sections that do not contain `rva` does not move the first
/// match.
proof fn lemma_find_section_skip(ss: Seq<SectionHeader>, rva: int, i: int)
    requires
        0 <= i <= ss.len(),
        forall|j: int| 0 <= j < i ==> !spec_section_contains(ss[j], rva),
    ensures
        spec_find_section(ss, rva) == spec_find_section_from(ss, rva, i),
    decreases i,
{
    if i > 0 {
        lemma_find_section_skip(ss, rva, i - 1);
        assert(spec_find_section_from(ss, rva, i - 1) == spec_find_section_from(ss, rva, i));
    }
}

/// True when every present directory of the table `dirs` parses against
/// the section table `ss`: its RVA lies in some section, its span fits the
/// buffer, and its contents decode whole.  Absent directories ask nothing.
pub open spec fn spec_pe_directories_ok(
    b: Seq<u8>,
    x64: bool,
    dirs: Seq<DataDirectory>,
    ss: Seq<SectionHeader>,
) -> bool {
    &&& dirs[0].size != 0 ==> (spec_find_section(ss, dirs[0].virtual_address as int)
        matches Some(si) && {
        let t = spec_rva_to_file_pointer(dirs[0].virtual_address as int, ss[si]);
        t + dirs[0].size <= b.len() && spec_export_ok(b, ss[si], t)
    })
    &&& dirs[1].size != 0 ==> (spec_find_section(ss, dirs[1].virtual_address as int)
        matches Some(si) && {
        let t = spec_rva_to_file_pointer(dirs[1].virtual_address as int, ss[si]);
        t + dirs[1].size <= b.len() && spec_import_descriptors_ok(b, ss[si], x64, t)
    })
    &&& dirs[6].size != 0 ==> (spec_find_section(ss, dirs[6].virtual_address as int)
        matches Some(si) && {
        let t = spec_rva_to_file_pointer(dirs[6].virtual_address as int, ss[si]);
        t + dirs[6].size <= b.len() && spec_debug_ok(b, ss[si], t, dirs[6].size as int)
    })
    &&& dirs[10].size != 0 ==> (spec_find_section(ss, dirs[10].virtual_address as int)
        matches Some(si) && {
        let t = spec_rva_to_file_pointer(dirs[10].virtual_address as int, ss[si]);
        t + dirs[10].size <= b.len() && t + (if x64 {
            264int
        } else {
            164int
        }) <= b.len()
    })
    &&& dirs[14].size != 0 ==> (spec_find_section(ss, dirs[14].virtual_address as int)
        matches Some(si) && {
        let t = spec_rva_to_file_pointer(dirs[14].virtual_address as int, ss[si]);
        t + dirs[14].size <= b.len() && t + 72 <= b.len()
    })
}

/// True of every executable that `parse` returned successfully on: the four
/// header records hold exactly what the buffer stores, and each of the five
/// parsed directories holds the outcome its parser owes, absent exactly when
/// its directory slot has size zero.  A buffer without the `MZ` magic stops
/// after the DOS header; one without the `PE\0\0` signature stops after the
/// file header.
pub open spec fn spec_image_parsed(s: Executable) -> bool {
    let b = s.buffer@;
    &&& b.len() >= 2
    &&& s.dos_header matches Some(d) && {
        &&& le_u16_at(b, 0) != 0x5A4D ==> {
            &&& d == (DosHeader { addr_of_nt_header: 0, is_windows_executable: false })
            &&& s.file_header is None
            &&& s.optional_header is None
            &&& s.section_headers is None
            &&& s.export_data is None
            &&& s.import_data is None
            &&& s.debug_data is None
            &&& s.load_config_data is None
            &&& s.com_descriptor_data is None
        }
        &&& le_u16_at(b, 0) == 0x5A4D ==> {
            &&& b.len() >= 0x40
            &&& d == (DosHeader { addr_of_nt_header: le_i32_at(b, 0x3C), is_windows_executable: true })
            &&& d.addr_of_nt_header >= 0
            &&& {
                let a = d.addr_of_nt_header as int;
                &&& a + 4 <= b.len()
                &&& s.file_header matches Some(fh) && {
                    &&& le_u32_at(b, a) != 0x0000_4550 ==> fh == spec_file_header_zero()
                    &&& le_u32_at(b, a) == 0x0000_4550 ==> a + 24 <= b.len() && fh
                        == spec_file_header(b, a + 4)
                    &&& fh.machine == 0 ==> {
                        &&& s.optional_header is None
                        &&& s.section_headers is None
                        &&& s.export_data is None
                        &&& s.import_data is None
                        &&& s.debug_data is None
                        &&& s.load_config_data is None
                        &&& s.com_descriptor_data is None
                    }
                    &&& fh.machine != 0 ==> {
                        &&& {
                            let x64 = fh.machine == X64_MACHINE;
                            let hs = spec_optional_header_size(x64);
                            let sec_start = a + 24 + hs + 128;
                            &&& a + 24 + hs + 128 <= b.len()
                            &&& s.optional_header matches Some(oh) && optional_header_matches(
                                oh,
                                b,
                                a + 24,
                                x64,
                            )
                            &&& s.section_headers matches Some(ss) && ss@.len()
                                == fh.number_of_sections && (forall|i: int|
                                0 <= i < ss@.len() ==> section_header_matches(
                                    #[trigger] ss@[i],
                                    b,
                                    sec_start + 40 * i,
                                ))
                            &&& spec_parse_exports(
                                b,
                                s.spec_data_directories(),
                                s.spec_sections(),
                                Ok(s.export_data),
                            )
                            &&& spec_parse_imports(
                                b,
                                x64,
                                s.spec_data_directories(),
                                s.spec_sections(),
                                Ok(s.import_data),
                            )
                            &&& spec_parse_debug(
                                b,
                                s.spec_data_directories(),
                                s.spec_sections(),
                                Ok(s.debug_data),
                            )
                            &&& spec_parse_load_config(
                                b,
                                x64,
                                s.spec_data_directories(),
                                s.spec_sections(),
                                Ok(s.load_config_data),
                            )
                            &&& spec_parse_cor20(
                                b,
                                s.spec_data_directories(),
                                s.spec_sections(),
                                Ok(
                                    match s.com_descriptor_data {
                                        Some(c) => Some(c.cor20_header),
                                        None => None,
                                    },
                                ),
                            )
                        }
                    }
                }
            }
        }
    }
}

/// Every supported directory that a successful parse found present
/// resolved through exactly one section, and its whole span lies inside the
/// file: for an image whose sections do not overlap, the section found for
/// the directory's RVA is the only one containing it, and the translated
/// file offset plus the directory size stays within the buffer.
pub proof fn lemma_present_directory_resolution(s: Executable, idx: int)
    requires
        spec_image_parsed(s),
        sections_disjoint(s.spec_sections()),
        s.optional_header is Some,
        idx == 0 || idx == 1 || idx == 6 || idx == 10 || idx == 14,
        s.spec_data_directories()[idx].size != 0,
    ensures
        ({
            let dd = s.spec_data_directories()[idx];
            let rva = dd.virtual_address as int;
            let found = spec_find_section(s.spec_sections(), rva);
            &&& found matches Some(i) && {
                &&& 0 <= i < s.spec_sections().len()
                &&& spec_section_contains(s.spec_sections()[i], rva)
                &&& forall|j: int|
                    0 <= j < s.spec_sections().len() && spec_section_contains(
                        #[trigger] s.spec_sections()[j],
                        rva,
                    ) ==> j == i
                &&& spec_rva_to_file_pointer(rva, s.spec_sections()[i]) + dd.size
                    <= s.buffer@.len()
            }
        }),
{
    let b = s.buffer@;
    let dd = s.spec_data_directories()[idx];
    let rva = dd.virtual_address as int;
    let found = spec_find_section(s.spec_sections(), rva);
    assert(le_u16_at(b, 0) == 0x5A4D);
    let fh = s.file_header->Some_0;
    assert(fh.machine != 0);
    if found is None {
        assert(false);
    }
    let i = found->Some_0;
    lemma_resolution_unique(s.spec_sections(), rva, i);
    assert(spec_rva_to_file_pointer(rva, s.spec_sections()[i]) + dd.size <= b.len());
}

impl Executable {
    /// Wraps a fully read image: the path it came from and its bytes.
    /// Everything else starts absent.
    pub fn new(path: String, buffer: Vec<u8>) -> (r: Executable)
        ensures
            r.path == path,
            r.buffer == buffer,
            r.dos_header is None,
            r.file_header is None,
            r.optional_header is None,
            r.section_headers is None,
            r.export_data is None,
            r.import_data is None,
            r.debug_data is None,
            r.load_config_data is None,
            r.com_descriptor_data is None,
    {
        Executable {
            path,
            buffer,
            dos_header: None,
            file_header: None,
            optional_header: None,
            section_headers: None,
            export_data: None,
            import_data: None,
            debug_data: None,
            load_config_data: None,
            com_descriptor_data: None,
        }
    }

    /// True once the four header records are in place and the directory
    /// table has its sixteen slots: what every directory parser needs.
    pub open spec fn headers_parsed(self) -> bool {
        &&& self.dos_header is Some
        &&& self.file_header is Some
        &&& self.optional_header is Some
        &&& self.section_headers is Some
        &&& self.optional_header->Some_0.data_directory@.len() == 16
    }

    /// The parsed section table, as a sequence.
    pub open spec fn spec_sections(self) -> Seq<SectionHeader> {
        self.section_headers->Some_0@
    }

    /// The parsed directory table, as a sequence.
    pub open spec fn spec_data_directories(self) -> Seq<DataDirectory> {
        self.optional_header->Some_0.data_directory@
    }

    /// Parses the whole image in order: the DOS header, then — for Windows
    /// executables with the `PE\0\0` signature — the COFF header, the
    /// optional header with its sixteen directory slots, the section table,
    /// and finally the five supported directories, each independently
    /// present or absent.  The buffer and path are never changed; the first
    /// failing step reports its error and leaves later records unset.
    #[verifier::rlimit(100)]
    pub fn parse(&mut self) -> (r: Result<(), ParseError>)
        ensures
            final(self).path == old(self).path,
            final(self).buffer == old(self).buffer,
            r matches Err(e) ==> spec_parser_error(e),
            ({
                let b = old(self).buffer@;
                &&& b.len() < 2 ==> r == Err::<(), ParseError>(ParseError::IoFailure)
                &&& b.len() >= 2 && le_u16_at(b, 0) != 0x5A4D ==> r is Ok
                &&& b.len() >= 2 && le_u16_at(b, 0) == 0x5A4D && b.len() < 0x40 ==> r == Err::<
                    (),
                    ParseError,
                >(ParseError::DecodeFailure { offset: 0x3C })
                &&& b.len() >= 0x40 && le_u16_at(b, 0) == 0x5A4D && le_i32_at(b, 0x3C) < 0 ==> r
                    == Err::<(), ParseError>(ParseError::DecodeFailure { offset: 0 })
                &&& b.len() >= 0x40 && le_u16_at(b, 0) == 0x5A4D && le_i32_at(b, 0x3C) >= 0
                    && le_i32_at(b, 0x3C) + 4 > b.len() ==> r == Err::<(), ParseError>(
                    ParseError::DecodeFailure { offset: le_i32_at(b, 0x3C) as u64 },
                )
                &&& b.len() >= 0x40 && le_u16_at(b, 0) == 0x5A4D && le_i32_at(b, 0x3C) >= 0
                    && le_i32_at(b, 0x3C) + 4 <= b.len() && le_u32_at(b, le_i32_at(b, 0x3C) as int)
                    != 0x0000_4550 ==> r is Ok
            }),
            ({
                let b = old(self).buffer@;
                b.len() >= 0x40 && le_u16_at(b, 0) == 0x5A4D && le_i32_at(b, 0x3C) >= 0 && le_i32_at(
                    b,
                    0x3C,
                ) + 24 <= b.len() && le_u32_at(b, le_i32_at(b, 0x3C) as int) == 0x0000_4550 ==> {
                    let a = le_i32_at(b, 0x3C) as int;
                    let fh = spec_file_header(b, a + 4);
                    &&& fh.machine == 0 ==> r is Ok
                    &&& fh.machine != 0 ==> {
                        let x64 = fh.machine == X64_MACHINE;
                        let hs = spec_optional_header_size(x64);
                        let sec_start = a + 24 + hs + 128;
                        &&& !(sec_start <= b.len()) ==> r is Err
                        &&& sec_start <= b.len() && !(sec_start + 40 * fh.number_of_sections
                            <= b.len()) ==> r is Err
                        &&& sec_start + 40 * fh.number_of_sections <= b.len() ==> {
                            &&& final(self).optional_header matches Some(oh)
                                && optional_header_matches(oh, b, a + 24, x64)
                            &&& final(self).section_headers matches Some(sv) && sv@.len()
                                == fh.number_of_sections
                            &&& (r is Ok <==> spec_pe_directories_ok(
                                b,
                                x64,
                                final(self).optional_header->Some_0.data_directory@,
                                final(self).section_headers->Some_0@,
                            ))
                        }
                    }
                }
            }),
            r is Ok ==> spec_image_parsed(*final(self)),
    {
        let ghost b = self.buffer@;
        self.dos_header = None;
        self.file_header = None;
        self.optional_header = None;
        self.section_headers = None;
        self.export_data = None;
        self.import_data = None;
        self.debug_data = None;
        self.load_config_data = None;
        self.com_descriptor_data = None;
        let dos_header = match DosHeader::parse(self.buffer.as_slice()) {
            Ok(d) => d,
            Err(e) => {
                return Err(e);
            },
        };
        self.dos_header = Some(dos_header);
        if !dos_header.is_windows_executable() {
            return Ok(());
        }
        let mut offset: usize = 0;
        let file_header = match FileHeader::parse(self.buffer.as_slice(), &dos_header, &mut offset) {
            Ok(h) => h,
            Err(e) => {
                return Err(e);
            },
        };
        self.file_header = Some(file_header);
        if !file_header.is_portable_executable() {
            return Ok(());
        }
        let ghost a = dos_header.addr_of_nt_header as int;
        let optional_header = match OptionalHeader::parse(
            self.buffer.as_slice(),
            &file_header,
            &mut offset,
        ) {
            Ok(h) => h,
            Err(e) => {
                return Err(e);
            },
        };
        let ghost x64 = file_header.machine == X64_MACHINE;
        let ghost hs = spec_optional_header_size(x64);
        let ghost sec_start = a + 24 + hs + 128;
        let ghost oh = optional_header;
        self.optional_header = Some(optional_header);
        let n_sections = file_header.number_of_sections();
        let mut section_headers: Vec<SectionHeader> = Vec::new();
        let mut k: u16 = 0;
        while k < n_sections
            invariant
                k <= n_sections,
                b == self.buffer@,
                self.buffer == old(self).buffer,
                self.path == old(self).path,
                b.len() >= 0x40,
                le_u16_at(b, 0) == 0x5A4D,
                dos_header == (DosHeader {
                    addr_of_nt_header: le_i32_at(b, 0x3C),
                    is_windows_executable: true,
                }),
                a == dos_header.addr_of_nt_header as int,
                a >= 0,
                a + 24 <= b.len(),
                le_u32_at(b, a) == 0x0000_4550,
                file_header == spec_file_header(b, a + 4),
                file_header.machine != 0,
                x64 == (file_header.machine == X64_MACHINE),
                hs == spec_optional_header_size(x64),
                sec_start == a + 24 + hs + 128,
                sec_start <= b.len(),
                optional_header_matches(oh, b, a + 24, x64),
                self.dos_header == Some(dos_header),
                self.file_header == Some(file_header),
                self.optional_header == Some(oh),
                offset == sec_start + 40 * k,
                sec_start <= b.len(),
                k > 0 ==> offset <= b.len(),
                n_sections == file_header.number_of_sections,
                section_headers@.len() == k,
                forall|i: int|
                    0 <= i < k ==> section_header_matches(
                        #[trigger] section_headers@[i],
                        b,
                        sec_start + 40 * i,
                    ),
            decreases n_sections - k,
        {
            let section_header = match SectionHeader::parse(self.buffer.as_slice(), &mut offset) {
                Ok(s) => s,
                Err(e) => {
                    proof {
                        assert(40 * (k + 1) <= 40 * n_sections);
                        assert(sec_start + 40 * n_sections > b.len());
                    }
                    return Err(e);
                },
            };
            section_headers.push(section_header);
            k = k + 1;
        }
        proof {
            assert(sec_start + 40 * n_sections <= b.len());
        }
        let ghost ssv = section_headers@;
        self.section_headers = Some(section_headers);
        proof {
            assert(self.headers_parsed());
        }
        let export_data = match ExportContainer::parse(self) {
            Ok(o) => o,
            Err(e) => {
                proof {
                    assert(!spec_pe_directories_ok(b, x64, oh.data_directory@, ssv));
                }
                return Err(e);
            },
        };
        self.export_data = export_data;
        let import_data = match ImportContainer::parse(self) {
            Ok(o) => o,
            Err(e) => {
                proof {
                    assert(!spec_pe_directories_ok(b, x64, oh.data_directory@, ssv));
                }
                return Err(e);
            },
        };
        self.import_data = import_data;
        let debug_data = match DebugContainer::parse(self) {
            Ok(o) => o,
            Err(e) => {
                proof {
                    assert(!spec_pe_directories_ok(b, x64, oh.data_directory@, ssv));
                }
                return Err(e);
            },
        };
        self.debug_data = debug_data;
        let load_config_data = match LoadConfigContainer::parse(self) {
            Ok(o) => o,
            Err(e) => {
                proof {
                    assert(!spec_pe_directories_ok(b, x64, oh.data_directory@, ssv));
                }
                return Err(e);
            },
        };
        self.load_config_data = load_config_data;
        let com_descriptor_data = match ComDescriptor::parse(self) {
            Ok(o) => o,
            Err(e) => {
                proof {
                    assert(!spec_pe_directories_ok(b, x64, oh.data_directory@, ssv));
                }
                return Err(e);
            },
        };
        self.com_descriptor_data = com_descriptor_data;
        proof {
            assert(spec_pe_directories_ok(b, x64, oh.data_directory@, ssv));
        }
        Ok(())
    }

    /// The raw image bytes.
    pub fn buffer(&self) -> (r: &[u8])
        ensures
            r@ == self.buffer@,
    {
        self.buffer.as_slice()
    }

    /// The parsed COM descriptor, if the directory was present.
    pub fn com_descriptor_data(&self) -> (r: Option<&ComDescriptor>)
        ensures
            r matches Some(c) ==> self.com_descriptor_data matches Some(w) && c == &w,
            r is None <==> self.com_descriptor_data is None,
    {
        self.com_descriptor_data.as_ref()
    }

    /// The parsed debug records, if the directory was present.
    pub fn debug_data(&self) -> (r: Option<&Vec<DebugContainer>>)
        ensures
            r matches Some(v) ==> self.debug_data matches Some(w) && v == &w,
            r is None <==> self.debug_data is None,
    {
        self.debug_data.as_ref()
    }

    /// The parsed DOS header.
    pub fn dos_header(&self) -> (r: Option<&DosHeader>)
        ensures
            r matches Some(h) ==> self.dos_header matches Some(w) && h == &w,
            r is None <==> self.dos_header is None,
    {
        self.dos_header.as_ref()
    }

    /// The parsed export directory, if present.
    pub fn export_data(&self) -> (r: Option<&ExportContainer>)
        ensures
            r matches Some(c) ==> self.export_data matches Some(w) && c == &w,
            r is None <==> self.export_data is None,
    {
        self.export_data.as_ref()
    }

    /// The parsed COFF file header.
    pub fn file_header(&self) -> (r: Option<&FileHeader>)
        ensures
            r matches Some(h) ==> self.file_header matches Some(w) && h == &w,
            r is None <==> self.file_header is None,
    {
        self.file_header.as_ref()
    }

    /// The parsed import directory, if present.
    pub fn import_data(&self) -> (r: Option<&ImportContainer>)
        ensures
            r matches Some(c) ==> self.import_data matches Some(w) && c == &w,
            r is None <==> self.import_data is None,
    {
        self.import_data.as_ref()
    }

    /// The parsed load configuration, if present.
    pub fn load_config_data(&self) -> (r: Option<&LoadConfigContainer>)
        ensures
            r matches Some(c) ==> self.load_config_data matches Some(w) && c == &w,
            r is None <==> self.load_config_data is None,
    {
        self.load_config_data.as_ref()
    }

    /// The parsed optional header.
    pub fn optional_header(&self) -> (r: Option<&OptionalHeader>)
        ensures
            r matches Some(h) ==> self.optional_header matches Some(w) && h == &w,
            r is None <==> self.optional_header is None,
    {
        self.optional_header.as_ref()
    }

    /// The parsed section table.
    pub fn section_headers(&self) -> (r: Option<&Vec<SectionHeader>>)
        ensures
            r matches Some(v) ==> self.section_headers matches Some(w) && v == &w,
            r is None <==> self.section_headers is None,
    {
        self.section_headers.as_ref()
    }

    /// The position of the first section containing the directory's RVA,
    /// scanning the table in declaration order.
    pub fn in_section(&self, directory: &DataDirectory) -> (r: Option<usize>)
        requires
            self.section_headers is Some,
        ensures
            r matches Some(i) ==> spec_find_section(
                self.spec_sections(),
                directory.virtual_address as int,
            ) == Some(i as int) && i < self.spec_sections().len() && spec_section_contains(
                self.spec_sections()[i as int],
                directory.virtual_address as int,
            ),
            r is None ==> spec_find_section(
                self.spec_sections(),
                directory.virtual_address as int,
            ) is None,
    {
        let rva = directory.virtual_address;
        let sections = self.section_headers.as_ref().unwrap();
        let ghost ss = self.spec_sections();
        let mut i: usize = 0;
        while i < sections.len()
            invariant
                i <= ss.len(),
                ss == sections@,
                ss == self.spec_sections(),
                rva == directory.virtual_address,
                forall|j: int| 0 <= j < i ==> !spec_section_contains(ss[j], rva as int),
            decreases ss.len() - i,
        {
            let section = &sections[i];
            let size: u32 = if section.virtual_size == 0 {
                section.size_of_raw_data
            } else {
                section.virtual_size
            };
            if section.virtual_address <= rva && rva - section.virtual_address < size {
                proof {
                    lemma_find_section_skip(ss, rva as int, i as int);
                    assert(spec_section_contains(ss[i as int], rva as int));
                    assert(spec_find_section_from(ss, rva as int, i as int) == Some(i as int));
                }
                return Some(i);
            }
            i = i + 1;
        }
        proof {
            lemma_find_section_skip(ss, rva as int, ss.len() as int);
        }
        None
    }

    /// Resolves a present directory: finds the section containing its RVA,
    /// translates the RVA to a file offset, and checks that the whole
    /// directory span lies inside the buffer.  Returns the section position
    /// and the file offset.
    pub fn resolve_directory(&self, directory: &DataDirectory) -> (r: Result<
        (usize, usize),
        ParseError,
    >)
        requires
            self.section_headers is Some,
        ensures
            ({
                let ss = self.spec_sections();
                let rva = directory.virtual_address as int;
                let found = spec_find_section(ss, rva);
                &&& found is None ==> r == Err::<(usize, usize), ParseError>(
                    ParseError::UnresolvableRva { rva: directory.virtual_address },
                )
                &&& found matches Some(i) ==> {
                    let t = spec_rva_to_file_pointer(rva, ss[i]);
                    &&& t + directory.size > self.buffer@.len() ==> r == Err::<
                        (usize, usize),
                        ParseError,
                    >(ParseError::DecodeFailure { offset: (t + directory.size) as u64 })
                    &&& t + directory.size <= self.buffer@.len() ==> (r matches Ok(o) && o.0 == i
                        && o.1 == t && i < ss.len())
                }
            }),
    {
        let i = match self.in_section(directory) {
            Some(i) => i,
            None => {
                return Err(ParseError::UnresolvableRva { rva: directory.virtual_address });
            },
        };
        let sections = self.section_headers.as_ref().unwrap();
        let section = &sections[i];
        let t: u64 = (directory.virtual_address - section.virtual_address) as u64
            + section.pointer_to_raw_data as u64;
        if t + directory.size as u64 > self.buffer.len() as u64 {
            return Err(ParseError::DecodeFailure { offset: t + directory.size as u64 });
        }
        Ok((i, t as usize))
    }

    /// True when the image targets x64, read from the COFF machine field.
    pub fn is_x64(&self) -> (r: bool)
        requires
            self.file_header is Some,
        ensures
            r == (self.file_header->Some_0.machine == X64_MACHINE),
    {
        self.file_header.as_ref().unwrap().machine() == X64_MACHINE
    }
}

} // verus!
