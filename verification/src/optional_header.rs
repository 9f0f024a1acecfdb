//! The optional header, decoded from either the PE32 or the PE32+ layout
//! into one unified record with 64-bit-wide pointer fields, followed by the
//! fixed sixteen-slot data-directory table.
use vstd::prelude::*;

use crate::data_directory::DataDirectory;
use crate::error::ParseError;
use crate::file_header::FileHeader;
use crate::reader::{get_u16, get_u32, get_u64, get_u8, le_u16_at, le_u32_at, le_u64_at,
    span_fits};

verus! {

/// How many slots the directory table always has.
pub const NUMBER_OF_DATA_DIRECTORIES: usize = 16;

/// The machine code of x64 images.
pub const X64_MACHINE: u16 = 0x8664;

/// The unified optional header.  `base_of_data` is zero for PE32+ images,
/// and the pointer-width fields of PE32 images are widened to 64 bits.
#[derive(Clone, Debug)]
pub struct OptionalHeader {
    pub magic: u16,
    pub major_linker_version: u8,
    pub minor_linker_version: u8,
    pub size_of_code: u32,
    pub size_of_initialized_data: u32,
    pub size_of_uninitialized_data: u32,
    pub address_of_entry_point: u32,
    pub base_of_code: u32,
    pub base_of_data: u32,
    pub image_base: u64,
    pub section_alignment: u32,
    pub file_alignment: u32,
    pub major_operating_system_version: u16,
    pub minor_operating_system_version: u16,
    pub major_image_version: u16,
    pub minor_image_version: u16,
    pub major_subsystem_version: u16,
    pub minor_subsystem_version: u16,
    pub win32_version_value: u32,
    pub size_of_image: u32,
    pub size_of_headers: u32,
    pub checksum: u32,
    pub subsystem: u16,
    pub dll_characteristics: u16,
    pub size_of_stack_reserve: u64,
    pub size_of_stack_commit: u64,
    pub size_of_heap_reserve: u64,
    pub size_of_heap_commit: u64,
    pub loader_flags: u32,
    pub number_of_rva_and_sizes: u32,
    pub data_directory: Vec<DataDirectory>,
}

/// The byte length of the fixed part of the optional header, before the
/// directory table.
pub open spec fn spec_optional_header_size(x64: bool) -> int {
    if x64 {
        112
    } else {
        96
    }
}

/// The sixteen directory slots stored at `off`, eight bytes each.
pub open spec fn spec_data_dirs(b: Seq<u8>, off: int) -> Seq<DataDirectory> {
    Seq::new(
        16,
        |i: int|
            DataDirectory {
                virtual_address: le_u32_at(b, off + 8 * i),
                size: le_u32_at(b, off + 8 * i + 4),
            },
    )
}

/// True when `h` holds exactly the optional header stored at `off`, decoded
/// with the PE32+ layout when `x64` and the PE32 layout otherwise.
pub open spec fn optional_header_matches(h: OptionalHeader, b: Seq<u8>, off: int, x64: bool) -> bool {
    &&& h.magic == le_u16_at(b, off)
    &&& h.major_linker_version == b[off + 2]
    &&& h.minor_linker_version == b[off + 3]
    &&& h.size_of_code == le_u32_at(b, off + 4)
    &&& h.size_of_initialized_data == le_u32_at(b, off + 8)
    &&& h.size_of_uninitialized_data == le_u32_at(b, off + 12)
    &&& h.address_of_entry_point == le_u32_at(b, off + 16)
    &&& h.base_of_code == le_u32_at(b, off + 20)
    &&& h.base_of_data == (if x64 {
        0u32
    } else {
        le_u32_at(b, off + 24)
    })
    &&& h.image_base == (if x64 {
        le_u64_at(b, off + 24)
    } else {
        le_u32_at(b, off + 28) as u64
    })
    &&& h.section_alignment == le_u32_at(b, off + 32)
    &&& h.file_alignment == le_u32_at(b, off + 36)
    &&& h.major_operating_system_version == le_u16_at(b, off + 40)
    &&& h.minor_operating_system_version == le_u16_at(b, off + 42)
    &&& h.major_image_version == le_u16_at(b, off + 44)
    &&& h.minor_image_version == le_u16_at(b, off + 46)
    &&& h.major_subsystem_version == le_u16_at(b, off + 48)
    &&& h.minor_subsystem_version == le_u16_at(b, off + 50)
    &&& h.win32_version_value == le_u32_at(b, off + 52)
    &&& h.size_of_image == le_u32_at(b, off + 56)
    &&& h.size_of_headers == le_u32_at(b, off + 60)
    &&& h.checksum == le_u32_at(b, off + 64)
    &&& h.subsystem == le_u16_at(b, off + 68)
    &&& h.dll_characteristics == le_u16_at(b, off + 70)
    &&& h.size_of_stack_reserve == (if x64 {
        le_u64_at(b, off + 72)
    } else {
        le_u32_at(b, off + 72) as u64
    })
    &&& h.size_of_stack_commit == (if x64 {
        le_u64_at(b, off + 80)
    } else {
        le_u32_at(b, off + 76) as u64
    })
    &&& h.size_of_heap_reserve == (if x64 {
        le_u64_at(b, off + 88)
    } else {
        le_u32_at(b, off + 80) as u64
    })
    &&& h.size_of_heap_commit == (if x64 {
        le_u64_at(b, off + 96)
    } else {
        le_u32_at(b, off + 84) as u64
    })
    &&& h.loader_flags == (if x64 {
        le_u32_at(b, off + 104)
    } else {
        le_u32_at(b, off + 88)
    })
    &&& h.number_of_rva_and_sizes == (if x64 {
        le_u32_at(b, off + 108)
    } else {
        le_u32_at(b, off + 92)
    })
    &&& h.data_directory@ == spec_data_dirs(b, off + spec_optional_header_size(x64))
}

/// The offset reported when the directory table runs past the end of the
/// buffer: the start of the first slot that does not fit whole.
pub open spec fn spec_dirs_fail_offset(len: int, off: int) -> int {
    if off <= len {
        off + 8 * ((len - off) / 8)
    } else {
        off
    }
}

impl OptionalHeader {
    /// Decodes the optional header at the cursor, dispatching on the machine
    /// recorded in the COFF header, then reads the sixteen directory slots
    /// that follow it.  On success the cursor is left after the table, and
    /// the directory table always has exactly sixteen entries.
    pub fn parse(buffer: &[u8], file_header: &FileHeader, offset: &mut usize) -> (r: Result<
        OptionalHeader,
        ParseError,
    >)
        ensures
            ({
                let x64 = file_header.machine == X64_MACHINE;
                let hs = spec_optional_header_size(x64);
                let off = *old(offset) as int;
                let len = buffer@.len() as int;
                &&& off + hs > len ==> r == Err::<OptionalHeader, ParseError>(
                    ParseError::DecodeFailure { offset: *old(offset) as u64 },
                )
                &&& off + hs <= len && off + hs + 128 > len ==> r == Err::<
                    OptionalHeader,
                    ParseError,
                >(ParseError::DecodeFailure { offset: spec_dirs_fail_offset(len, off + hs) as u64 })
                &&& off + hs + 128 <= len ==> {
                    &&& r matches Ok(h)
                    &&& optional_header_matches(h, buffer@, off, x64)
                    &&& h.data_directory@.len() == 16
                    &&& *final(offset) == off + hs + 128
                }
            }),
    {
        let off = *offset;
        let x64 = file_header.machine() == X64_MACHINE;
        let hs: usize = if x64 {
            112
        } else {
            96
        };
        if !span_fits(buffer, off, hs) {
            return Err(ParseError::DecodeFailure { offset: off as u64 });
        }
        let mut dir_offset: usize = off + hs;
        let data_directory = Self::parse_data_directories(buffer, &mut dir_offset)?;
        let header = OptionalHeader {
            magic: get_u16(buffer, off),
            major_linker_version: get_u8(buffer, off + 2),
            minor_linker_version: get_u8(buffer, off + 3),
            size_of_code: get_u32(buffer, off + 4),
            size_of_initialized_data: get_u32(buffer, off + 8),
            size_of_uninitialized_data: get_u32(buffer, off + 12),
            address_of_entry_point: get_u32(buffer, off + 16),
            base_of_code: get_u32(buffer, off + 20),
            base_of_data: if x64 {
                0
            } else {
                get_u32(buffer, off + 24)
            },
            image_base: if x64 {
                get_u64(buffer, off + 24)
            } else {
                get_u32(buffer, off + 28) as u64
            },
            section_alignment: get_u32(buffer, off + 32),
            file_alignment: get_u32(buffer, off + 36),
            major_operating_system_version: get_u16(buffer, off + 40),
            minor_operating_system_version: get_u16(buffer, off + 42),
            major_image_version: get_u16(buffer, off + 44),
            minor_image_version: get_u16(buffer, off + 46),
            major_subsystem_version: get_u16(buffer, off + 48),
            minor_subsystem_version: get_u16(buffer, off + 50),
            win32_version_value: get_u32(buffer, off + 52),
            size_of_image: get_u32(buffer, off + 56),
            size_of_headers: get_u32(buffer, off + 60),
            checksum: get_u32(buffer, off + 64),
            subsystem: get_u16(buffer, off + 68),
            dll_characteristics: get_u16(buffer, off + 70),
            size_of_stack_reserve: if x64 {
                get_u64(buffer, off + 72)
            } else {
                get_u32(buffer, off + 72) as u64
            },
            size_of_stack_commit: if x64 {
                get_u64(buffer, off + 80)
            } else {
                get_u32(buffer, off + 76) as u64
            },
            size_of_heap_reserve: if x64 {
                get_u64(buffer, off + 88)
            } else {
                get_u32(buffer, off + 80) as u64
            },
            size_of_heap_commit: if x64 {
                get_u64(buffer, off + 96)
            } else {
                get_u32(buffer, off + 84) as u64
            },
            loader_flags: if x64 {
                get_u32(buffer, off + 104)
            } else {
                get_u32(buffer, off + 88)
            },
            number_of_rva_and_sizes: if x64 {
                get_u32(buffer, off + 108)
            } else {
                get_u32(buffer, off + 92)
            },
            data_directory,
        };
        *offset = dir_offset;
        Ok(header)
    }

    /// Reads the sixteen directory slots at the cursor, eight bytes each,
    /// and advances the cursor past them.
    fn parse_data_directories(buffer: &[u8], offset: &mut usize) -> (r: Result<
        Vec<DataDirectory>,
        ParseError,
    >)
        ensures
            ({
                let off = *old(offset) as int;
                let len = buffer@.len() as int;
                &&& off + 128 > len ==> r == Err::<Vec<DataDirectory>, ParseError>(
                    ParseError::DecodeFailure { offset: spec_dirs_fail_offset(len, off) as u64 },
                )
                &&& off + 128 <= len ==> {
                    &&& r matches Ok(v)
                    &&& v@ == spec_data_dirs(buffer@, off)
                    &&& *final(offset) == off + 128
                }
            }),
    {
        let off = *offset;
        if !span_fits(buffer, off, 128) {
            let full: usize = if off <= buffer.len() {
                (buffer.len() - off) / 8
            } else {
                0
            };
            return Err(ParseError::DecodeFailure { offset: (off + 8 * full) as u64 });
        }
        let mut v: Vec<DataDirectory> = Vec::new();
        let mut i: usize = 0;
        while i < 16
            invariant
                i <= 16,
                off + 128 <= buffer@.len(),
                buffer@.len() <= usize::MAX,
                v@.len() == i,
                forall|j: int| 0 <= j < i ==> v@[j] == spec_data_dirs(buffer@, off as int)[j],
            decreases 16 - i,
        {
            let entry = off + 8 * i;
            v.push(DataDirectory::new(get_u32(buffer, entry), get_u32(buffer, entry + 4)));
            i = i + 1;
        }
        proof {
            assert(v@ =~= spec_data_dirs(buffer@, off as int));
        }
        *offset = off + 128;
        Ok(v)
    }

    /// The RVA at which execution starts.
    pub fn address_of_entry_point(&self) -> (r: u32)
        ensures
            r == self.address_of_entry_point,
    {
        self.address_of_entry_point
    }

    /// The RVA of the start of the code section.
    pub fn base_of_code(&self) -> (r: u32)
        ensures
            r == self.base_of_code,
    {
        self.base_of_code
    }

    /// The RVA of the start of the data section; zero for PE32+ images.
    pub fn base_of_data(&self) -> (r: u32)
        ensures
            r == self.base_of_data,
    {
        self.base_of_data
    }

    /// The image checksum.
    pub fn checksum(&self) -> (r: u32)
        ensures
            r == self.checksum,
    {
        self.checksum
    }

    /// The sixteen-slot directory table.
    pub fn data_directories(&self) -> (r: &Vec<DataDirectory>)
        ensures
            r == &self.data_directory,
    {
        &self.data_directory
    }

    /// The DLL characteristics flag word.
    pub fn dll_characteristics(&self) -> (r: u16)
        ensures
            r == self.dll_characteristics,
    {
        self.dll_characteristics
    }

    /// The on-disk alignment of section data.
    pub fn file_alignment(&self) -> (r: u32)
        ensures
            r == self.file_alignment,
    {
        self.file_alignment
    }

    /// The preferred load address.
    pub fn image_base(&self) -> (r: u64)
        ensures
            r == self.image_base,
    {
        self.image_base
    }

    /// The loader flag word.
    pub fn loader_flags(&self) -> (r: u32)
        ensures
            r == self.loader_flags,
    {
        self.loader_flags
    }

    /// The magic that discriminates PE32 from PE32+.
    pub fn magic(&self) -> (r: u16)
        ensures
            r == self.magic,
    {
        self.magic
    }

    /// The linker major version.
    pub fn major_linker_version(&self) -> (r: u8)
        ensures
            r == self.major_linker_version,
    {
        self.major_linker_version
    }

    /// The image major version.
    pub fn major_image_version(&self) -> (r: u16)
        ensures
            r == self.major_image_version,
    {
        self.major_image_version
    }

    /// The required operating system's major version.
    pub fn major_operating_system_version(&self) -> (r: u16)
        ensures
            r == self.major_operating_system_version,
    {
        self.major_operating_system_version
    }

    /// The subsystem major version.
    pub fn major_subsystem_version(&self) -> (r: u16)
        ensures
            r == self.major_subsystem_version,
    {
        self.major_subsystem_version
    }

    /// The linker minor version.
    pub fn minor_linker_version(&self) -> (r: u8)
        ensures
            r == self.minor_linker_version,
    {
        self.minor_linker_version
    }

    /// The image minor version.
    pub fn minor_image_version(&self) -> (r: u16)
        ensures
            r == self.minor_image_version,
    {
        self.minor_image_version
    }

    /// The required operating system's minor version.
    pub fn minor_operating_system_version(&self) -> (r: u16)
        ensures
            r == self.minor_operating_system_version,
    {
        self.minor_operating_system_version
    }

    /// The subsystem minor version.
    pub fn minor_subsystem_version(&self) -> (r: u16)
        ensures
            r == self.minor_subsystem_version,
    {
        self.minor_subsystem_version
    }

    /// The directory-slot count the image reports; the table itself always
    /// has sixteen entries.
    pub fn number_of_rva_and_sizes(&self) -> (r: u32)
        ensures
            r == self.number_of_rva_and_sizes,
    {
        self.number_of_rva_and_sizes
    }

    /// The in-memory alignment of sections.
    pub fn section_alignment(&self) -> (r: u32)
        ensures
            r == self.section_alignment,
    {
        self.section_alignment
    }

    /// The total size of code.
    pub fn size_of_code(&self) -> (r: u32)
        ensures
            r == self.size_of_code,
    {
        self.size_of_code
    }

    /// The combined size of all headers.
    pub fn size_of_headers(&self) -> (r: u32)
        ensures
            r == self.size_of_headers,
    {
        self.size_of_headers
    }

    /// The bytes of heap committed at start.
    pub fn size_of_heap_commit(&self) -> (r: u64)
        ensures
            r == self.size_of_heap_commit,
    {
        self.size_of_heap_commit
    }

    /// The bytes of heap reserved.
    pub fn size_of_heap_reserve(&self) -> (r: u64)
        ensures
            r == self.size_of_heap_reserve,
    {
        self.size_of_heap_reserve
    }

    /// The in-memory size of the image.
    pub fn size_of_image(&self) -> (r: u32)
        ensures
            r == self.size_of_image,
    {
        self.size_of_image
    }

    /// The total size of initialized data.
    pub fn size_of_initialized_data(&self) -> (r: u32)
        ensures
            r == self.size_of_initialized_data,
    {
        self.size_of_initialized_data
    }

    /// The bytes of stack committed at start.
    pub fn size_of_stack_commit(&self) -> (r: u64)
        ensures
            r == self.size_of_stack_commit,
    {
        self.size_of_stack_commit
    }

    /// The bytes of stack reserved.
    pub fn size_of_stack_reserve(&self) -> (r: u64)
        ensures
            r == self.size_of_stack_reserve,
    {
        self.size_of_stack_reserve
    }

    /// The total size of uninitialized data.
    pub fn size_of_uninitialized_data(&self) -> (r: u32)
        ensures
            r == self.size_of_uninitialized_data,
    {
        self.size_of_uninitialized_data
    }

    /// The subsystem required to run the image.
    pub fn subsystem(&self) -> (r: u16)
        ensures
            r == self.subsystem,
    {
        self.subsystem
    }

    /// Reserved version value.
    pub fn win32_version_value(&self) -> (r: u32)
        ensures
            r == self.win32_version_value,
    {
        self.win32_version_value
    }
}

} // verus!
