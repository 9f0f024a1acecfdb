//! PE32+ paths: eight-byte thunk walks, the 64-bit load-configuration
//! layout, and multi-record debug directories.
use roki::Executable;

fn put16(v: &mut Vec<u8>, off: usize, val: u16) {
    v[off..off + 2].copy_from_slice(&val.to_le_bytes());
}

fn put32(v: &mut Vec<u8>, off: usize, val: u32) {
    v[off..off + 4].copy_from_slice(&val.to_le_bytes());
}

fn put64(v: &mut Vec<u8>, off: usize, val: u64) {
    v[off..off + 8].copy_from_slice(&val.to_le_bytes());
}

fn put_bytes(v: &mut Vec<u8>, off: usize, bytes: &[u8]) {
    v[off..off + bytes.len()].copy_from_slice(bytes);
}

/// A minimal PE32+ image with a .text and a .rdata section; .rdata maps
/// RVA 0x2000 to file offset 0x600.  Directory slot `i` sits at
/// `0x108 + 8 * i`.
fn build_pe64() -> Vec<u8> {
    let mut v = vec![0u8; 0xA00];
    put_bytes(&mut v, 0, b"MZ");
    put32(&mut v, 0x3C, 0x80);
    put_bytes(&mut v, 0x80, b"PE\0\0");
    put16(&mut v, 0x84, 0x8664);
    put16(&mut v, 0x86, 2);
    put16(&mut v, 0x90, 240);
    put16(&mut v, 0x98, 0x020B);
    put64(&mut v, 0xB0, 0x0001_4000_0000);
    put32(&mut v, 0x98 + 108, 16);
    let sections: [(&[u8], u32, u32, u32, u32); 2] = [
        (b".text\0\0\0", 0x1000, 0x1000, 0x200, 0x400),
        (b".rdata\0\0", 0x1000, 0x2000, 0x400, 0x600),
    ];
    for (i, (name, vsize, va, rawsize, praw)) in sections.iter().enumerate() {
        let off = 0x188 + 40 * i;
        put_bytes(&mut v, off, name);
        put32(&mut v, off + 8, *vsize);
        put32(&mut v, off + 12, *va);
        put32(&mut v, off + 16, *rawsize);
        put32(&mut v, off + 20, *praw);
    }
    v
}

fn parsed(buffer: Vec<u8>) -> Executable {
    let mut executable = Executable::new(String::from("synthetic64.exe"), buffer);
    executable.parse().expect("parse should succeed");
    executable
}

#[test]
fn x64_imports_walk_eight_byte_thunks() {
    let mut v = build_pe64();
    put32(&mut v, 0x108 + 8, 0x2000);
    put32(&mut v, 0x108 + 12, 40);
    // Descriptor: INT at 0x2040, name at 0x2090, IAT at 0x2060.
    put32(&mut v, 0x600, 0x2040);
    put32(&mut v, 0x60C, 0x2090);
    put32(&mut v, 0x610, 0x2060);
    // One name import and one ordinal import, then the terminators.
    put64(&mut v, 0x640, 0x20A0);
    put64(&mut v, 0x648, 0x8000_0000_0000_0005);
    put64(&mut v, 0x660, 0x20A0);
    put64(&mut v, 0x668, 0x8000_0000_0000_0005);
    put_bytes(&mut v, 0x690, b"USER64.dll\0");
    put16(&mut v, 0x6A0, 7);
    put_bytes(&mut v, 0x6A2, b"MessageBox\0");

    let executable = parsed(v);
    let descriptors = executable.import_data().unwrap().descriptors();
    assert_eq!(descriptors.len(), 1);
    assert_eq!(descriptors[0].name(), "USER64.dll");
    let functions = descriptors[0].functions();
    assert_eq!(functions.len(), 2);
    assert_eq!(functions[0].name(), "MessageBox");
    assert_eq!(functions[0].hint(), Some(7));
    assert_eq!(functions[0].address(), 0x20A0);
    assert_eq!(functions[1].name(), "(Ordinal 5)");
    assert_eq!(functions[1].hint(), None);
    assert_eq!(functions[1].address(), 0x8000_0000_0000_0005);
}

#[test]
fn x64_by_name_entry_past_the_rva_range_is_rejected() {
    let mut v = build_pe64();
    put32(&mut v, 0x108 + 8, 0x2000);
    put32(&mut v, 0x108 + 12, 40);
    put32(&mut v, 0x600, 0x2040);
    put32(&mut v, 0x60C, 0x2090);
    put32(&mut v, 0x610, 0x2060);
    // A by-name entry whose low 63 bits exceed the 32-bit RVA range.
    put64(&mut v, 0x640, 0x0000_0001_0000_2040);
    put64(&mut v, 0x660, 0x0000_0001_0000_2040);
    put_bytes(&mut v, 0x690, b"USER64.dll\0");

    let mut executable = Executable::new(String::from("oversized.exe"), v);
    assert_eq!(
        executable.parse(),
        Err(roki::ParseError::DecodeFailure { offset: 0x640 }),
    );
}

#[test]
fn x64_load_config_parses_the_sixty_four_bit_layout() {
    let mut v = build_pe64();
    put32(&mut v, 0x108 + 10 * 8, 0x2000);
    put32(&mut v, 0x108 + 10 * 8 + 4, 0x108);
    put32(&mut v, 0x600, 0x108);  // declared size
    put64(&mut v, 0x618, 0x10_0000);  // de-commit free block threshold
    put64(&mut v, 0x658, 0x0001_4000_5060);  // security cookie
    put16(&mut v, 0x694, 1);  // code-integrity flags

    let executable = parsed(v);
    let config = executable.load_config_data().unwrap().directory();
    assert_eq!(config.size(), 0x108);
    assert_eq!(config.de_commit_free_block_threshold(), 0x10_0000);
    assert_eq!(config.security_cookie(), 0x0001_4000_5060);
    assert_eq!(config.code_integrity().flags(), 1);
}

#[test]
fn debug_directory_with_two_records() {
    let mut v = build_pe64();
    put32(&mut v, 0x108 + 6 * 8, 0x2000);
    put32(&mut v, 0x108 + 6 * 8 + 4, 56);
    // First record: CodeView.
    put32(&mut v, 0x60C, 2);
    put32(&mut v, 0x614, 0x2080);
    // Second record: some other type.
    put32(&mut v, 0x61C + 12, 16);
    // CodeView payload at rva 0x2080 -> file 0x680.
    put_bytes(&mut v, 0x680, b"RSDS");
    put32(&mut v, 0x694, 1);
    put_bytes(&mut v, 0x698, b"app64.pdb\0");

    let executable = parsed(v);
    let debug = executable.debug_data().unwrap();
    assert_eq!(debug.len(), 2);
    assert_eq!(debug[0].directory().type_code(), 2);
    assert_eq!(debug[0].code_view().unwrap().path(), "app64.pdb");
    assert_eq!(debug[1].directory().type_code(), 16);
    assert!(debug[1].code_view().is_none());
}
