//! Section headers: the table that maps RVA ranges to file-offset ranges.
use vstd::prelude::*;

use crate::error::ParseError;
use crate::reader::{chars_of_bytes, get_u16, get_u32, le_u16_at, le_u32_at, span_fits,
    string_of_bytes};

verus! {

/// One 40-byte section header.  The name keeps its raw eight bytes,
/// zero-padding included.
#[derive(Clone, Debug)]
pub struct SectionHeader {
    pub name: Vec<u8>,
    pub virtual_size: u32,
    pub virtual_address: u32,
    pub size_of_raw_data: u32,
    pub pointer_to_raw_data: u32,
    pub pointer_to_relocations: u32,
    pub pointer_to_linenumbers: u32,
    pub number_of_relocations: u16,
    pub number_of_linenumbers: u16,
    pub characteristics: u32,
}

/// True when `s` holds exactly the section header stored at `off .. off + 40`.
pub open spec fn section_header_matches(s: SectionHeader, b: Seq<u8>, off: int) -> bool {
    &&& s.name@ == b.subrange(off, off + 8)
    &&& s.virtual_size == le_u32_at(b, off + 8)
    &&& s.virtual_address == le_u32_at(b, off + 12)
    &&& s.size_of_raw_data == le_u32_at(b, off + 16)
    &&& s.pointer_to_raw_data == le_u32_at(b, off + 20)
    &&& s.pointer_to_relocations == le_u32_at(b, off + 24)
    &&& s.pointer_to_linenumbers == le_u32_at(b, off + 28)
    &&& s.number_of_relocations == le_u16_at(b, off + 32)
    &&& s.number_of_linenumbers == le_u16_at(b, off + 34)
    &&& s.characteristics == le_u32_at(b, off + 36)
}

/// The extent of a section in the loaded image: the virtual size, or the raw
/// size where the virtual size is zero.
pub open spec fn spec_section_size(s: SectionHeader) -> int {
    if s.virtual_size == 0 {
        s.size_of_raw_data as int
    } else {
        s.virtual_size as int
    }
}

/// True when `rva` lies inside the section: at or after its start and
/// strictly before its end.
pub open spec fn spec_section_contains(s: SectionHeader, rva: int) -> bool {
    s.virtual_address <= rva < s.virtual_address + spec_section_size(s)
}

/// True when no RVA lies in two different sections of `ss`.
pub open spec fn sections_disjoint(ss: Seq<SectionHeader>) -> bool {
    forall|i: int, j: int|
        0 <= i < j < ss.len() ==> (ss[i].virtual_address + spec_section_size(ss[i])
            <= ss[j].virtual_address || ss[j].virtual_address + spec_section_size(ss[j])
            <= ss[i].virtual_address)
}

/// Section containment is antisymmetric: in an image whose sections do not
/// overlap, an RVA contained in the sections at positions `i` and `j` forces
/// `i == j`, so no RVA resolves to two sections.
pub proof fn lemma_section_containment_antisymmetric(
    ss: Seq<SectionHeader>,
    rva: int,
    i: int,
    j: int,
)
    requires
        sections_disjoint(ss),
        0 <= i < ss.len(),
        0 <= j < ss.len(),
        spec_section_contains(ss[i], rva),
        spec_section_contains(ss[j], rva),
    ensures
        i == j,
{
    if i < j {
        assert(false);
    } else if j < i {
        assert(false);
    }
}

/// The file offset at which the byte addressed by `rva` is stored, given the
/// section that contains the RVA.
pub open spec fn spec_rva_to_file_pointer(rva: int, s: SectionHeader) -> int {
    rva - s.virtual_address + s.pointer_to_raw_data
}

/// Translates `rva` to a file offset through `section`.  Fails when the RVA
/// does not lie in the section, or when the translated offset falls past the
/// end of the buffer.
pub fn resolve_rva(buffer: &[u8], rva: u32, section: &SectionHeader) -> (r: Result<
    usize,
    ParseError,
>)
    ensures
        ({
            let t = spec_rva_to_file_pointer(rva as int, *section);
            &&& !spec_section_contains(*section, rva as int) ==> r == Err::<usize, ParseError>(
                ParseError::UnresolvableRva { rva },
            )
            &&& spec_section_contains(*section, rva as int) && t > buffer@.len() ==> r == Err::<
                usize,
                ParseError,
            >(ParseError::DecodeFailure { offset: t as u64 })
            &&& spec_section_contains(*section, rva as int) && t <= buffer@.len() ==> (r
                matches Ok(o) && o == t)
        }),
{
    let va = section.virtual_address;
    let size: u32 = if section.virtual_size == 0 {
        section.size_of_raw_data
    } else {
        section.virtual_size
    };
    if !(va <= rva && rva - va < size) {
        return Err(ParseError::UnresolvableRva { rva });
    }
    let t: u64 = (rva - va) as u64 + section.pointer_to_raw_data as u64;
    if t > buffer.len() as u64 {
        return Err(ParseError::DecodeFailure { offset: t });
    }
    Ok(t as usize)
}

impl SectionHeader {
    /// Decodes the 40-byte section header at the cursor and advances the
    /// cursor past it.
    pub fn parse(buffer: &[u8], offset: &mut usize) -> (r: Result<SectionHeader, ParseError>)
        ensures
            *old(offset) + 40 > buffer@.len() ==> r == Err::<SectionHeader, ParseError>(
                ParseError::DecodeFailure { offset: (*old(offset)) as u64 },
            ),
            *old(offset) + 40 <= buffer@.len() ==> {
                &&& r matches Ok(s)
                &&& section_header_matches(s, buffer@, (*old(offset)) as int)
                &&& *final(offset) == *old(offset) + 40
            },
    {
        let off = *offset;
        if !span_fits(buffer, off, 40) {
            return Err(ParseError::DecodeFailure { offset: off as u64 });
        }
        let mut name: Vec<u8> = Vec::new();
        proof {
            assert(name@ =~= buffer@.subrange(off as int, off as int));
        }
        let mut k: usize = 0;
        while k < 8
            invariant
                k <= 8,
                off + 40 <= buffer@.len(),
                buffer@.len() <= usize::MAX,
                name@ == buffer@.subrange(off as int, off + k),
            decreases 8 - k,
        {
            name.push(buffer[off + k]);
            proof {
                assert(name@ =~= buffer@.subrange(off as int, off + k + 1));
            }
            k = k + 1;
        }
        let section_header = SectionHeader {
            name,
            virtual_size: get_u32(buffer, off + 8),
            virtual_address: get_u32(buffer, off + 12),
            size_of_raw_data: get_u32(buffer, off + 16),
            pointer_to_raw_data: get_u32(buffer, off + 20),
            pointer_to_relocations: get_u32(buffer, off + 24),
            pointer_to_linenumbers: get_u32(buffer, off + 28),
            number_of_relocations: get_u16(buffer, off + 32),
            number_of_linenumbers: get_u16(buffer, off + 34),
            characteristics: get_u32(buffer, off + 36),
        };
        *offset = off + 40;
        Ok(section_header)
    }

    /// The section flag word.
    pub fn characteristics(&self) -> (r: u32)
        ensures
            r == self.characteristics,
    {
        self.characteristics
    }

    /// The eight name bytes as characters, zero-padding included.
    pub fn name(&self) -> (r: String)
        ensures
            r@ == chars_of_bytes(self.name@),
    {
        string_of_bytes(&self.name)
    }

    /// How many line-number entries the section has.
    pub fn number_of_linenumbers(&self) -> (r: u16)
        ensures
            r == self.number_of_linenumbers,
    {
        self.number_of_linenumbers
    }

    /// How many relocation entries the section has.
    pub fn number_of_relocations(&self) -> (r: u16)
        ensures
            r == self.number_of_relocations,
    {
        self.number_of_relocations
    }

    /// The file offset of the section's line numbers.
    pub fn pointer_to_linenumbers(&self) -> (r: u32)
        ensures
            r == self.pointer_to_linenumbers,
    {
        self.pointer_to_linenumbers
    }

    /// The file offset of the section's raw data.
    pub fn pointer_to_raw_data(&self) -> (r: u32)
        ensures
            r == self.pointer_to_raw_data,
    {
        self.pointer_to_raw_data
    }

    /// The file offset of the section's relocations.
    pub fn pointer_to_relocations(&self) -> (r: u32)
        ensures
            r == self.pointer_to_relocations,
    {
        self.pointer_to_relocations
    }

    /// The size of the section's raw data on disk.
    pub fn size_of_raw_data(&self) -> (r: u32)
        ensures
            r == self.size_of_raw_data,
    {
        self.size_of_raw_data
    }

    /// The RVA at which the section is loaded.
    pub fn virtual_address(&self) -> (r: u32)
        ensures
            r == self.virtual_address,
    {
        self.virtual_address
    }

    /// The extent of the section once loaded.
    pub fn virtual_size(&self) -> (r: u32)
        ensures
            r == self.virtual_size,
    {
        self.virtual_size
    }
}

} // verus!
