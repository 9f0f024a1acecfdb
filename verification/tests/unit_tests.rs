//! Unit tests of the byte primitives, string helpers and small records.
use roki::data_directory::DataDirectory;
use roki::debug_directory::DebugDirectory;
use roki::dos_header::DosHeader;
use roki::file_header::FileHeader;
use roki::guid::GUID;
use roki::reader;
use roki::ParseError;

#[test]
fn little_endian_reads() {
    let b = [0x01u8, 0x02, 0x03, 0x04, 0x05, 0x06, 0x07, 0x08];
    assert_eq!(reader::get_u8(&b, 0), 0x01);
    assert_eq!(reader::get_u16(&b, 0), 0x0201);
    assert_eq!(reader::get_u32(&b, 0), 0x0403_0201);
    assert_eq!(reader::get_u64(&b, 0), 0x0807_0605_0403_0201);
    assert_eq!(reader::get_u16(&b, 3), 0x0504);
}

#[test]
fn signed_reads_interpret_the_high_bit() {
    let b = [0xFF, 0xFF, 0xFF, 0xFF, 0x80, 0x00, 0x00, 0x00];
    assert_eq!(reader::get_i32(&b, 0), -1);
    assert_eq!(reader::get_i32(&b, 4), 0x80);
}

#[test]
fn big_endian_reads() {
    let b = [0x12u8, 0x34, 0x56, 0x78];
    assert_eq!(reader::get_be_u16(&b, 0), 0x1234);
    assert_eq!(reader::get_be_u32(&b, 0), 0x1234_5678);
}

#[test]
fn span_checks() {
    let b = [0u8; 4];
    assert!(reader::span_fits(&b, 0, 4));
    assert!(reader::span_fits(&b, 4, 0));
    assert!(!reader::span_fits(&b, 1, 4));
    assert!(!reader::span_fits(&b, 5, 0));
}

#[test]
fn zero_terminated_strings() {
    let b = b"hi\0there";
    assert_eq!(reader::read_string(b, 0).unwrap(), "hi");
    assert_eq!(reader::read_string(b, 1).unwrap(), "i");
    assert_eq!(reader::read_string(b, 2).unwrap(), "");
    assert_eq!(
        reader::read_string(b, 3),
        Err(ParseError::StringDecodeFailure { offset: 3 }),
    );
    assert_eq!(
        reader::read_string(b, 100),
        Err(ParseError::StringDecodeFailure { offset: 100 }),
    );
}

#[test]
fn ordinal_names_render_in_decimal() {
    assert_eq!(reader::ordinal_name(0), "(Ordinal 0)");
    assert_eq!(reader::ordinal_name(7), "(Ordinal 7)");
    assert_eq!(reader::ordinal_name(65535), "(Ordinal 65535)");
}

#[test]
fn guid_renders_uppercase_without_padding() {
    let guid = GUID {
        data1: 0x0012_3ABC,
        data2: 0x0001,
        data3: 0xF0F0,
        data4: 0x0000,
        data5: 0x0000_00FF,
        data6: 0x0001,
    };
    assert_eq!(guid.to_string(), "123ABC-1-F0F0-0-FF1");
}

#[test]
fn guid_parses_mixed_endianness() {
    let b = [
        0x78u8, 0x56, 0x34, 0x12, 0xCD, 0xAB, 0x11, 0xF0, 0x0A, 0x0B, 0x0C, 0x0D, 0x0E, 0x0F,
        0x10, 0x11,
    ];
    let guid = GUID::parse(&b, 0);
    assert_eq!(guid.data1, 0x1234_5678);
    assert_eq!(guid.data2, 0xABCD);
    assert_eq!(guid.data3, 0xF011);
    assert_eq!(guid.data4, 0x0A0B);
    assert_eq!(guid.data5, 0x0C0D_0E0F);
    assert_eq!(guid.data6, 0x1011);
}

#[test]
fn dos_header_records_the_magic_verdict() {
    let header = DosHeader::parse(b"MZ").err();
    assert_eq!(header, Some(ParseError::DecodeFailure { offset: 0x3C }));
    let mut v = vec![0u8; 0x40];
    v[0] = 0x4D;
    v[1] = 0x5A;
    v[0x3C] = 0x80;
    let parsed = DosHeader::parse(&v).unwrap();
    assert!(parsed.is_windows_executable());
    assert_eq!(parsed.addr_of_nt_header(), 0x80);
    let other = DosHeader::parse(b"ZM").unwrap();
    assert!(!other.is_windows_executable());
    assert_eq!(other.addr_of_nt_header(), 0);
}

#[test]
fn file_header_requires_the_signature() {
    let mut v = vec![0u8; 0x40];
    v[0] = 0x4D;
    v[1] = 0x5A;
    v[0x3C] = 0x20;
    let dos = DosHeader::parse(&v).unwrap();
    let mut offset = 0usize;
    // No PE signature at 0x20: the zero header comes back.
    let header = FileHeader::parse(&v, &dos, &mut offset).unwrap();
    assert!(!header.is_portable_executable());
    assert_eq!(header.machine(), 0);
}

#[test]
fn debug_directory_decodes_in_field_order() {
    let mut v = vec![0u8; 28];
    v[0] = 0xAA;
    v[4] = 0xBB;
    v[8] = 0x01;
    v[10] = 0x02;
    v[12] = 0x02;
    v[16] = 0x30;
    v[20] = 0x40;
    v[24] = 0x50;
    let mut offset = 0usize;
    let record = DebugDirectory::parse(&v, &mut offset).unwrap();
    assert_eq!(offset, 28);
    assert_eq!(record.characteristics(), 0xAA);
    assert_eq!(record.time_date_stamp(), 0xBB);
    assert_eq!(record.major_version(), 1);
    assert_eq!(record.minor_version(), 2);
    assert_eq!(record.type_code(), 2);
    assert_eq!(record.size_of_data(), 0x30);
    assert_eq!(record.address_of_raw_data(), 0x40);
    assert_eq!(record.pointer_to_raw_data(), 0x50);
}

#[test]
fn data_directory_presence_is_its_size() {
    let absent = DataDirectory::new(0x2000, 0);
    assert_eq!(absent.size(), 0);
    assert_eq!(absent.virtual_address(), 0x2000);
    let present = DataDirectory::new(0x2000, 0x40);
    assert_eq!(present.size(), 0x40);
}
