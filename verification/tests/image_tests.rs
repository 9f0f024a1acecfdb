//! End-to-end parses of whole synthetic images: boundary inputs and the
//! PE32 / PE32+ header paths.
use roki::{Executable, ParseError};

fn put16(v: &mut Vec<u8>, off: usize, val: u16) {
    v[off..off + 2].copy_from_slice(&val.to_le_bytes());
}

fn put32(v: &mut Vec<u8>, off: usize, val: u32) {
    v[off..off + 4].copy_from_slice(&val.to_le_bytes());
}

fn put64(v: &mut Vec<u8>, off: usize, val: u64) {
    v[off..off + 8].copy_from_slice(&val.to_le_bytes());
}

fn put_bytes(v: &mut Vec<u8>, off: usize, bytes: &[u8]) {
    v[off..off + bytes.len()].copy_from_slice(bytes);
}

/// A minimal PE32 image: MZ stub, NT headers at 0x80, a 224-byte optional
/// header, and three sections (.text, .rdata, .data).  All directory slots
/// start zero; callers patch what they need.
fn build_pe32(number_of_sections: u16) -> Vec<u8> {
    let mut v = vec![0u8; 0xA00];
    put_bytes(&mut v, 0, b"MZ");
    put32(&mut v, 0x3C, 0x80);
    put_bytes(&mut v, 0x80, b"PE\0\0");
    // COFF file header.
    put16(&mut v, 0x84, 0x014C);
    put16(&mut v, 0x86, number_of_sections);
    put32(&mut v, 0x88, 0x5F00_0000);
    put16(&mut v, 0x90, 224);
    put16(&mut v, 0x92, 0x0102);
    // Optional header (PE32).
    put16(&mut v, 0x98, 0x010B);
    v[0x9A] = 14;
    v[0x9B] = 2;
    put32(&mut v, 0x9C, 0x200);
    put32(&mut v, 0xA8, 0x1100);
    put32(&mut v, 0xAC, 0x1000);
    put32(&mut v, 0xB0, 0x3000);
    put32(&mut v, 0xB4, 0x0040_0000);
    put32(&mut v, 0xB8, 0x1000);
    put32(&mut v, 0xBC, 0x200);
    put16(&mut v, 0xDC, 3);
    put32(&mut v, 0xF4, 16);
    // Section headers at 0x178.
    let sections: [(&[u8], u32, u32, u32, u32); 3] = [
        (b".text\0\0\0", 0x1000, 0x1000, 0x200, 0x400),
        (b".rdata\0\0", 0x1000, 0x2000, 0x200, 0x600),
        (b".data\0\0\0", 0x1000, 0x3000, 0x200, 0x800),
    ];
    for (i, (name, vsize, va, rawsize, praw)) in sections.iter().enumerate() {
        if (i as u16) < number_of_sections {
            let off = 0x178 + 40 * i;
            put_bytes(&mut v, off, name);
            put32(&mut v, off + 8, *vsize);
            put32(&mut v, off + 12, *va);
            put32(&mut v, off + 16, *rawsize);
            put32(&mut v, off + 20, *praw);
        }
    }
    v
}

/// A minimal PE32+ image with one .text section.
fn build_pe32_plus() -> Vec<u8> {
    let mut v = vec![0u8; 0xA00];
    put_bytes(&mut v, 0, b"MZ");
    put32(&mut v, 0x3C, 0x80);
    put_bytes(&mut v, 0x80, b"PE\0\0");
    put16(&mut v, 0x84, 0x8664);
    put16(&mut v, 0x86, 1);
    put16(&mut v, 0x90, 240);
    put16(&mut v, 0x92, 0x0022);
    put16(&mut v, 0x98, 0x020B);
    put64(&mut v, 0xB0, 0x0001_4000_0000);
    put32(&mut v, 0xB8, 0x1000);
    put32(&mut v, 0xBC, 0x200);
    put32(&mut v, 0x98 + 108, 16);
    let off = 0x188;
    put_bytes(&mut v, off, b".text\0\0\0");
    put32(&mut v, off + 8, 0x1000);
    put32(&mut v, off + 12, 0x1000);
    put32(&mut v, off + 16, 0x200);
    put32(&mut v, off + 20, 0x400);
    v
}

fn parsed(buffer: Vec<u8>) -> Executable {
    let mut executable = Executable::new(String::from("synthetic.exe"), buffer);
    executable.parse().expect("parse should succeed");
    executable
}

#[test]
fn zero_length_file_is_an_io_failure() {
    let mut executable = Executable::new(String::from("empty.bin"), Vec::new());
    assert_eq!(executable.parse(), Err(ParseError::IoFailure));
}

#[test]
fn one_byte_file_is_an_io_failure() {
    let mut executable = Executable::new(String::from("tiny.bin"), vec![0x4D]);
    assert_eq!(executable.parse(), Err(ParseError::IoFailure));
}

#[test]
fn pe_offset_beyond_eof_is_a_decode_failure_at_that_offset() {
    let mut v = vec![0u8; 0x100];
    put_bytes(&mut v, 0, b"MZ");
    put32(&mut v, 0x3C, 0x5000);
    let mut executable = Executable::new(String::from("broken.exe"), v);
    assert_eq!(executable.parse(), Err(ParseError::DecodeFailure { offset: 0x5000 }));
}

#[test]
fn non_mz_image_parses_as_non_windows_executable() {
    let mut executable = Executable::new(String::from("elf.bin"), vec![0x7F, 0x45, 0x4C, 0x46]);
    assert!(executable.parse().is_ok());
    let dos = executable.dos_header().unwrap();
    assert!(!dos.is_windows_executable());
    assert!(executable.file_header().is_none());
    assert!(executable.optional_header().is_none());
}

#[test]
fn bad_pe_signature_parses_as_not_portable_executable() {
    let mut v = build_pe32(3);
    put_bytes(&mut v, 0x80, b"XX\0\0");
    let mut executable = Executable::new(String::from("odd.exe"), v);
    assert!(executable.parse().is_ok());
    assert!(executable.dos_header().unwrap().is_windows_executable());
    assert!(!executable.file_header().unwrap().is_portable_executable());
    assert!(executable.optional_header().is_none());
    assert!(executable.section_headers().is_none());
}

#[test]
fn zero_sections_with_no_directories_parses_empty() {
    let executable = parsed(build_pe32(0));
    assert_eq!(executable.section_headers().unwrap().len(), 0);
    assert!(executable.export_data().is_none());
    assert!(executable.import_data().is_none());
    assert!(executable.debug_data().is_none());
    assert!(executable.load_config_data().is_none());
    assert!(executable.com_descriptor_data().is_none());
}

#[test]
fn zero_sections_with_a_present_directory_is_unresolvable() {
    let mut v = build_pe32(0);
    // Import directory slot: present but no section can contain it.
    put32(&mut v, 0xF8 + 8, 0x2000);
    put32(&mut v, 0xF8 + 12, 40);
    let mut executable = Executable::new(String::from("nosec.exe"), v);
    assert_eq!(executable.parse(), Err(ParseError::UnresolvableRva { rva: 0x2000 }));
}

#[test]
fn all_directories_zero_parse_as_absent() {
    let executable = parsed(build_pe32(3));
    let dirs = executable.optional_header().unwrap().data_directories();
    assert_eq!(dirs.len(), 16);
    for dir in dirs.iter() {
        assert_eq!(dir.size(), 0);
    }
    assert!(executable.export_data().is_none());
    assert!(executable.import_data().is_none());
    assert!(executable.debug_data().is_none());
    assert!(executable.load_config_data().is_none());
    assert!(executable.com_descriptor_data().is_none());
}

#[test]
fn pe32_headers_and_kernel32_import() {
    let mut v = build_pe32(3);
    // Import directory in .rdata (rva 0x2000 -> file 0x600).
    put32(&mut v, 0xF8 + 8, 0x2000);
    put32(&mut v, 0xF8 + 12, 40);
    // Descriptor: INT at 0x2040, name at 0x2080, IAT at 0x2060.
    put32(&mut v, 0x600, 0x2040);
    put32(&mut v, 0x60C, 0x2080);
    put32(&mut v, 0x610, 0x2060);
    // INT and IAT both point at the hint/name record at 0x2090.
    put32(&mut v, 0x640, 0x2090);
    put32(&mut v, 0x660, 0x2090);
    put_bytes(&mut v, 0x680, b"KERNEL32.dll\0");
    put16(&mut v, 0x690, 0x0152);
    put_bytes(&mut v, 0x692, b"ExitProcess\0");

    let executable = parsed(v);
    assert_eq!(executable.file_header().unwrap().machine(), 0x014C);
    assert_eq!(executable.optional_header().unwrap().magic(), 0x010B);
    let sections = executable.section_headers().unwrap();
    assert_eq!(sections.len(), 3);
    assert_eq!(sections[0].name().trim_end_matches('\0'), ".text");
    assert_eq!(sections[1].name().trim_end_matches('\0'), ".rdata");
    assert_eq!(sections[2].name().trim_end_matches('\0'), ".data");
    let imports = executable.import_data().unwrap();
    let descriptors = imports.descriptors();
    assert_eq!(descriptors.len(), 1);
    assert_eq!(descriptors[0].name(), "KERNEL32.dll");
    assert_eq!(descriptors[0].original_first_thunk(), 0x2040);
    assert_eq!(descriptors[0].first_thunk(), 0x2060);
    let functions = descriptors[0].functions();
    assert_eq!(functions.len(), 1);
    assert_eq!(functions[0].name(), "ExitProcess");
    assert_eq!(functions[0].hint(), Some(0x0152));
    assert_eq!(functions[0].address(), 0x2090);
}

#[test]
fn pe32_plus_headers_widen_to_sixty_four_bits() {
    let executable = parsed(build_pe32_plus());
    assert_eq!(executable.file_header().unwrap().machine(), 0x8664);
    let optional = executable.optional_header().unwrap();
    assert_eq!(optional.magic(), 0x020B);
    assert_eq!(optional.base_of_data(), 0);
    assert_eq!(optional.image_base(), 0x0001_4000_0000u64);
    assert_eq!(optional.data_directories().len(), 16);
}

#[test]
fn ordinal_only_import_has_no_hint_and_a_synthesized_name() {
    let mut v = build_pe32(3);
    put32(&mut v, 0xF8 + 8, 0x2000);
    put32(&mut v, 0xF8 + 12, 40);
    put32(&mut v, 0x600, 0x2040);
    put32(&mut v, 0x60C, 0x2080);
    put32(&mut v, 0x610, 0x2060);
    // Ordinal import: high bit set, ordinal 17.
    put32(&mut v, 0x640, 0x8000_0011);
    put32(&mut v, 0x660, 0x8000_0011);
    put_bytes(&mut v, 0x680, b"legacy.dll\0");

    let executable = parsed(v);
    let descriptors = executable.import_data().unwrap().descriptors();
    let functions = descriptors[0].functions();
    assert_eq!(functions.len(), 1);
    assert_eq!(functions[0].hint(), None);
    assert_eq!(functions[0].name(), "(Ordinal 17)");
}
