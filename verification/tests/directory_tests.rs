//! Parses of the export, debug, load-configuration and COM-descriptor
//! directories over synthetic images.
use roki::{ClrContainer, Executable, ParseError};

fn put16(v: &mut Vec<u8>, off: usize, val: u16) {
    v[off..off + 2].copy_from_slice(&val.to_le_bytes());
}

fn put32(v: &mut Vec<u8>, off: usize, val: u32) {
    v[off..off + 4].copy_from_slice(&val.to_le_bytes());
}

fn put_bytes(v: &mut Vec<u8>, off: usize, bytes: &[u8]) {
    v[off..off + bytes.len()].copy_from_slice(bytes);
}

/// The same minimal PE32 base as the image tests: NT headers at 0x80 and a
/// .rdata section mapping RVA 0x2000 to file offset 0x600.
fn build_pe32(number_of_sections: u16) -> Vec<u8> {
    let mut v = vec![0u8; 0xA00];
    put_bytes(&mut v, 0, b"MZ");
    put32(&mut v, 0x3C, 0x80);
    put_bytes(&mut v, 0x80, b"PE\0\0");
    put16(&mut v, 0x84, 0x014C);
    put16(&mut v, 0x86, number_of_sections);
    put16(&mut v, 0x90, 224);
    put16(&mut v, 0x98, 0x010B);
    put32(&mut v, 0xF4, 16);
    let sections: [(&[u8], u32, u32, u32, u32); 3] = [
        (b".text\0\0\0", 0x1000, 0x1000, 0x200, 0x400),
        (b".rdata\0\0", 0x1000, 0x2000, 0x200, 0x600),
        (b".data\0\0\0", 0x1000, 0x3000, 0x200, 0x800),
    ];
    for (i, (name, vsize, va, rawsize, praw)) in sections.iter().enumerate() {
        if (i as u16) < number_of_sections {
            let off = 0x178 + 40 * i;
            put_bytes(&mut v, off, name);
            put32(&mut v, off + 8, *vsize);
            put32(&mut v, off + 12, *va);
            put32(&mut v, off + 16, *rawsize);
            put32(&mut v, off + 20, *praw);
        }
    }
    v
}

fn parsed(buffer: Vec<u8>) -> Executable {
    let mut executable = Executable::new(String::from("synthetic.dll"), buffer);
    executable.parse().expect("parse should succeed");
    executable
}

#[test]
fn named_and_unnamed_exports() {
    let mut v = build_pe32(3);
    // Export directory slot zero: rva 0x2000 -> file 0x600, size 0x100.
    put32(&mut v, 0xF8, 0x2000);
    put32(&mut v, 0xF8 + 4, 0x100);
    // IMAGE_EXPORT_DIRECTORY at 0x600.
    put32(&mut v, 0x60C, 0x2100);  // module name rva
    put32(&mut v, 0x610, 1);  // ordinal base
    put32(&mut v, 0x614, 2);  // number of functions
    put32(&mut v, 0x618, 1);  // number of names
    put32(&mut v, 0x61C, 0x2040);  // address of functions
    put32(&mut v, 0x620, 0x2050);  // address of names
    put32(&mut v, 0x624, 0x2060);  // address of name ordinals
    put32(&mut v, 0x640, 0x1111);
    put32(&mut v, 0x644, 0x2222);
    put32(&mut v, 0x650, 0x2110);
    put16(&mut v, 0x660, 0);
    put_bytes(&mut v, 0x700, b"EXPORTER.dll\0");
    put_bytes(&mut v, 0x710, b"Foo\0");

    let executable = parsed(v);
    let exports = executable.export_data().unwrap();
    assert_eq!(exports.directory().name(), "EXPORTER.dll");
    assert_eq!(exports.directory().base(), 1);
    assert_eq!(exports.directory().number_of_functions(), 2);
    assert_eq!(exports.directory().number_of_names(), 1);
    let functions = exports.functions().unwrap();
    assert_eq!(functions.len(), 2);
    assert_eq!(functions[0].name(), "Foo");
    assert_eq!(functions[0].ordinal(), 1);
    assert_eq!(functions[0].function(), 0x1111);
    assert_eq!(functions[1].name(), "(Ordinal 2)");
    assert_eq!(functions[1].ordinal(), 2);
    assert_eq!(functions[1].function(), 0x2222);
}

#[test]
fn export_slots_with_zero_rva_are_skipped() {
    let mut v = build_pe32(3);
    put32(&mut v, 0xF8, 0x2000);
    put32(&mut v, 0xF8 + 4, 0x100);
    put32(&mut v, 0x60C, 0x2100);
    put32(&mut v, 0x610, 5);
    put32(&mut v, 0x614, 3);  // three slots, middle one unused
    put32(&mut v, 0x618, 0);
    put32(&mut v, 0x61C, 0x2040);
    put32(&mut v, 0x620, 0x2050);
    put32(&mut v, 0x624, 0x2060);
    put32(&mut v, 0x640, 0x1111);
    put32(&mut v, 0x644, 0);
    put32(&mut v, 0x648, 0x3333);
    put_bytes(&mut v, 0x700, b"SPARSE.dll\0");

    let executable = parsed(v);
    let functions = executable.export_data().unwrap().functions().unwrap();
    assert_eq!(functions.len(), 2);
    assert_eq!(functions[0].ordinal(), 5);
    assert_eq!(functions[0].name(), "(Ordinal 5)");
    assert_eq!(functions[1].ordinal(), 7);
    assert_eq!(functions[1].function(), 0x3333);
}

#[test]
fn codeview_debug_record() {
    let mut v = build_pe32(3);
    // Debug directory slot six: one 28-byte record.
    put32(&mut v, 0xF8 + 6 * 8, 0x2000);
    put32(&mut v, 0xF8 + 6 * 8 + 4, 28);
    put32(&mut v, 0x600 + 12, 2);  // IMAGE_DEBUG_TYPE_CODEVIEW
    put32(&mut v, 0x600 + 16, 0x30);
    put32(&mut v, 0x600 + 20, 0x2040);  // address of raw data
    // CodeView record at rva 0x2040 -> file 0x640.
    put_bytes(&mut v, 0x640, b"RSDS");
    put_bytes(
        &mut v,
        0x644,
        &[0x78, 0x56, 0x34, 0x12, 0xCD, 0xAB, 0x11, 0xF0, 0x0A, 0x0B, 0x0C, 0x0D, 0x0E, 0x0F,
            0x10, 0x11],
    );
    put32(&mut v, 0x654, 3);
    put_bytes(&mut v, 0x658, b"C:\\build\\app.pdb\0");

    let executable = parsed(v);
    let debug = executable.debug_data().unwrap();
    assert_eq!(debug.len(), 1);
    assert_eq!(debug[0].directory().type_code(), 2);
    let code_view = debug[0].code_view().unwrap();
    assert_eq!(code_view.format(), 0x5344_5352);
    assert_eq!(code_view.age(), 3);
    assert!(code_view.path().ends_with(".pdb"));
    assert_eq!(code_view.guid().to_string(), "12345678-ABCD-F011-A0B-C0D0E0F1011");
}

#[test]
fn non_codeview_debug_record_has_no_payload() {
    let mut v = build_pe32(3);
    put32(&mut v, 0xF8 + 6 * 8, 0x2000);
    put32(&mut v, 0xF8 + 6 * 8 + 4, 28);
    put32(&mut v, 0x600 + 12, 4);  // some other debug type
    let executable = parsed(v);
    let debug = executable.debug_data().unwrap();
    assert_eq!(debug.len(), 1);
    assert_eq!(debug[0].directory().type_code(), 4);
    assert!(debug[0].code_view().is_none());
}

#[test]
fn managed_image_has_a_cor20_header() {
    let mut v = build_pe32(3);
    // COM-descriptor slot fourteen: 72 bytes at rva 0x2000 -> file 0x600.
    put32(&mut v, 0xF8 + 14 * 8, 0x2000);
    put32(&mut v, 0xF8 + 14 * 8 + 4, 72);
    put32(&mut v, 0x600, 72);  // cb
    put16(&mut v, 0x604, 2);  // major runtime version
    put16(&mut v, 0x606, 5);
    put32(&mut v, 0x608, 0x2100);  // metadata rva
    put32(&mut v, 0x60C, 0x40);  // metadata size
    put32(&mut v, 0x610, 1);  // flags: IL only
    put32(&mut v, 0x614, 0x0600_0001);  // entry point token

    let executable = parsed(v);
    let dirs = executable.optional_header().unwrap().data_directories();
    assert!(dirs[14].size() != 0);
    let com = executable.com_descriptor_data().unwrap();
    let header = com.cor20_header();
    assert_eq!(header.cb(), 72);
    assert_eq!(header.major_runtime_version(), 2);
    assert_eq!(header.minor_runtime_version(), 5);
    assert_eq!(header.meta_data().virtual_address(), 0x2100);
    assert_eq!(header.meta_data().size(), 0x40);
    assert_eq!(header.flags(), 1);
    assert_eq!(header.entry_point_token(), 0x0600_0001);
    assert_eq!(header.entry_point_rva(), 0x0600_0001);
    let clr = ClrContainer::parse(&executable).unwrap().unwrap();
    assert_eq!(clr.cor20_header().cb(), 72);
    assert_eq!(executable.buffer().len(), 0xA00);
}

#[test]
fn load_config_parses_the_thirty_two_bit_layout() {
    let mut v = build_pe32(3);
    // Load-config slot ten: the 164-byte layout fits the .rdata raw data.
    put32(&mut v, 0xF8 + 10 * 8, 0x2000);
    put32(&mut v, 0xF8 + 10 * 8 + 4, 0x40);
    put32(&mut v, 0x600, 0xA4);  // declared size
    put32(&mut v, 0x604, 0x1234_5678);  // timestamp
    put32(&mut v, 0x63C, 0x0040_5060);  // security cookie
    put16(&mut v, 0x65C, 0x0001);  // code-integrity flags
    put16(&mut v, 0x65E, 0x0002);  // code-integrity catalog

    let executable = parsed(v);
    let config = executable.load_config_data().unwrap().directory();
    assert_eq!(config.size(), 0xA4);
    assert_eq!(config.time_date_stamp(), 0x1234_5678);
    assert_eq!(config.security_cookie(), 0x0040_5060);
    assert_eq!(config.code_integrity().flags(), 1);
    assert_eq!(config.code_integrity().catalog(), 2);
}

#[test]
fn present_directory_spanning_past_eof_is_a_decode_failure() {
    let mut v = build_pe32(3);
    // Export directory whose span runs past the end of the file.
    put32(&mut v, 0xF8, 0x2000);
    put32(&mut v, 0xF8 + 4, 0x1000);
    let mut executable = Executable::new(String::from("clipped.dll"), v);
    assert_eq!(executable.parse(), Err(ParseError::DecodeFailure { offset: 0x1600 }));
}

#[test]
fn unterminated_name_is_a_string_decode_failure() {
    let mut v = build_pe32(3);
    put32(&mut v, 0xF8, 0x2000);
    put32(&mut v, 0xF8 + 4, 0x100);
    // Module name rva points at the very end of the buffer, all 0xFF.
    put32(&mut v, 0x60C, 0x2100);
    put32(&mut v, 0x614, 1);
    for b in v[0x700..0xA00].iter_mut() {
        *b = 0xFF;
    }
    let mut executable = Executable::new(String::from("torn.dll"), v);
    assert_eq!(executable.parse(), Err(ParseError::StringDecodeFailure { offset: 0x700 }));
}
