use dwarf_sections::endian::read_u32_at;
use dwarf_sections::image::{DataVariableInfo, Image, SectionInfo, SymbolInfo};
use dwarf_sections::{create_section_reader, Endianness, Error, RunTimeEndian, SectionId};

fn section(name: &str, start: u64, len: usize) -> SectionInfo {
    SectionInfo {
        name: name.to_string(),
        start,
        len,
    }
}

fn put_u32_le(data: &mut [u8], off: usize, v: u32) {
    for i in 0..4 {
        data[off + i] = (v >> (8 * i)) as u8;
    }
}

fn put_u64_le(data: &mut [u8], off: usize, v: u64) {
    for i in 0..8 {
        data[off + i] = (v >> (8 * i)) as u8;
    }
}

fn put_u32_be(data: &mut [u8], off: usize, v: u32) {
    for i in 0..4 {
        data[off + 3 - i] = (v >> (8 * i)) as u8;
    }
}

#[test]
fn endian_reads_have_exact_values() {
    let bytes = vec![0x78u8, 0x56, 0x34, 0x12, 0xaa, 0xbb, 0xcc, 0xdd];
    assert_eq!(read_u32_at(&bytes, 0, RunTimeEndian::Little), 0x12345678);
    assert_eq!(read_u32_at(&bytes, 0, RunTimeEndian::Big), 0x78563412);
    assert_eq!(read_u32_at(&bytes, 4, RunTimeEndian::Little), 0xddccbbaa);
    assert_eq!(read_u32_at(&bytes, 4, RunTimeEndian::Big), 0xaabbccdd);
}

/// The end-to-end uncompressed scenario: `.debug_info` at `[0x1000, 0x1100)`,
/// no section-header side table, little endian.
#[test]
fn uncompressed_section_round_trips() {
    let base: u64 = 0x1000;
    let mut data = vec![0u8; 0x100];
    for i in 0..0x100 {
        data[i] = (i % 251) as u8;
    }
    let expected = data.clone();
    let mut img = Image::new(
        base,
        data,
        vec![section(".debug_info", 0x1000, 0x100)],
        Vec::new(),
        Vec::new(),
        8,
        Endianness::LittleEndian,
        None,
    );
    let buf = create_section_reader(SectionId::DebugInfo, &mut img, RunTimeEndian::Little, false)
        .unwrap();
    assert_eq!(buf.data, expected);
    assert_eq!(buf.endian, RunTimeEndian::Little);
}

#[test]
fn absent_section_reads_as_empty() {
    let mut img = Image::new(
        0x1000,
        vec![7u8; 64],
        vec![section(".debug_info", 0x1000, 64)],
        Vec::new(),
        Vec::new(),
        8,
        Endianness::LittleEndian,
        None,
    );
    let buf = create_section_reader(SectionId::DebugAbbrev, &mut img, RunTimeEndian::Little, false)
        .unwrap();
    assert!(buf.data.is_empty());
    assert_eq!(buf.endian, RunTimeEndian::Little);
}

#[test]
fn zero_length_section_reads_as_empty() {
    let mut img = Image::new(
        0x1000,
        vec![9u8; 64],
        vec![section(".debug_aranges", 0x1000, 0)],
        Vec::new(),
        Vec::new(),
        8,
        Endianness::LittleEndian,
        None,
    );
    let buf = create_section_reader(SectionId::DebugAranges, &mut img, RunTimeEndian::Little, false)
        .unwrap();
    assert!(buf.data.is_empty());
}

#[test]
fn macho_named_section_is_resolved() {
    let mut img = Image::new(
        0x1000,
        vec![0x42u8; 8],
        vec![section("__debug_line", 0x1000, 8)],
        Vec::new(),
        Vec::new(),
        8,
        Endianness::LittleEndian,
        None,
    );
    let buf = create_section_reader(SectionId::DebugLine, &mut img, RunTimeEndian::Little, false)
        .unwrap();
    assert_eq!(buf.data, vec![0x42u8; 8]);
}

#[test]
fn dwo_name_takes_precedence_in_split_files() {
    let mut data = vec![0u8; 16];
    for i in 0..8 {
        data[i] = 1; // bytes of .debug_info
        data[8 + i] = 2; // bytes of .debug_info.dwo
    }
    let sections = vec![
        section(".debug_info", 0x1000, 8),
        section(".debug_info.dwo", 0x1008, 8),
    ];
    let mut img = Image::new(
        0x1000,
        data.clone(),
        sections.clone(),
        Vec::new(),
        Vec::new(),
        8,
        Endianness::LittleEndian,
        None,
    );
    let split = create_section_reader(SectionId::DebugInfo, &mut img, RunTimeEndian::Little, true)
        .unwrap();
    assert_eq!(split.data, vec![2u8; 8]);

    let mut img2 = Image::new(
        0x1000,
        data,
        sections,
        Vec::new(),
        Vec::new(),
        8,
        Endianness::LittleEndian,
        None,
    );
    let whole = create_section_reader(SectionId::DebugInfo, &mut img2, RunTimeEndian::Little, false)
        .unwrap();
    assert_eq!(whole.data, vec![1u8; 8]);
}

/// Builds an image whose `.debug_str` section at `0x2000` carries a
/// compression header (8-byte address size: 24 header bytes) with the given
/// method tag and payload, and whose 64-bit ELF section-header side table
/// marks that section compressed.
fn compressed_image_64(tag: u32, payload: &[u8]) -> Image {
    let base: u64 = 0x2000;
    let sec_len = 24 + payload.len();
    let mut data = vec![0u8; 0x1000 + 0x40];
    put_u32_le(&mut data, 0, tag);
    data[24..24 + payload.len()].copy_from_slice(payload);
    // One 64-byte section-header record at 0x3000: flags at byte 8 carry the
    // compressed bit, the address field at byte 24 names the section start.
    let table = 0x1000;
    put_u64_le(&mut data, table + 8, 0x800);
    put_u64_le(&mut data, table + 24, 0x2000);
    Image::new(
        base,
        data,
        vec![section(".debug_str", 0x2000, sec_len)],
        vec![SymbolInfo {
            full_name: "__elf_section_headers".to_string(),
            address: 0x3000,
        }],
        vec![DataVariableInfo {
            address: 0x3000,
            width: 64,
            element_width: Some(64),
        }],
        8,
        Endianness::LittleEndian,
        None,
    )
}

/// The end-to-end compressed scenario: a zstd-tagged `.debug_str` section
/// comes back as the decoded literal bytes.
#[test]
fn zstd_compressed_section_is_decoded() {
    let plain = b"abcdefgh".to_vec();
    let payload = zstd::encode_all(&plain[..], 0).unwrap();
    assert_ne!(payload, plain);
    let mut img = compressed_image_64(2, &payload);
    let buf = create_section_reader(SectionId::DebugStr, &mut img, RunTimeEndian::Little, false)
        .unwrap();
    assert_eq!(buf.data, plain);
    assert_eq!(buf.endian, RunTimeEndian::Little);
}

#[test]
fn zlib_compressed_section_is_inflated() {
    let plain = b"a section full of strings, strings, strings".to_vec();
    let payload = miniz_oxide::deflate::compress_to_vec_zlib(&plain, 6);
    assert_ne!(payload, plain);
    let mut img = compressed_image_64(1, &payload);
    let buf = create_section_reader(SectionId::DebugStr, &mut img, RunTimeEndian::Little, false)
        .unwrap();
    assert_eq!(buf.data, plain);
}

#[test]
fn unknown_compression_tag_is_an_error() {
    let mut img = compressed_image_64(3, b"whatever");
    let r = create_section_reader(SectionId::DebugStr, &mut img, RunTimeEndian::Little, false);
    assert_eq!(r.unwrap_err(), Error::UnknownCompressionMethod(3));
}

#[test]
fn corrupt_zstd_payload_is_a_decompression_error() {
    let mut img = compressed_image_64(2, &[0u8; 8]);
    let r = create_section_reader(SectionId::DebugStr, &mut img, RunTimeEndian::Little, false);
    assert_eq!(r.unwrap_err(), Error::DecompressionError);
}

#[test]
fn unmarked_section_is_returned_verbatim_even_with_side_table() {
    // The side table names a different section start, so the `.debug_str`
    // bytes come back raw, compression header and all.
    let payload = b"raw bytes".to_vec();
    let mut img = compressed_image_64(1, &payload);
    // Point the table's lone record away from the section.
    img.data[0x1000 + 24] = 0x99;
    let buf = create_section_reader(SectionId::DebugStr, &mut img, RunTimeEndian::Little, false)
        .unwrap();
    assert_eq!(buf.data.len(), 24 + payload.len());
    assert_eq!(&buf.data[24..], &payload[..]);
}

/// A 32-bit, big-endian image: records are 40 bytes, the flags field is the
/// 4 bytes at offset 8, the address field the 4 bytes at offset 16, and the
/// compression header is 12 bytes. The matching record is the second one.
#[test]
fn big_endian_32_bit_side_table_is_understood() {
    let plain = b"thirty-two bit section data".to_vec();
    let payload = miniz_oxide::deflate::compress_to_vec_zlib(&plain, 6);
    let base: u64 = 0x4000;
    let sec_len = 12 + payload.len();
    let mut data = vec![0u8; 0x1000 + 80];
    put_u32_be(&mut data, 0, 1);
    data[12..12 + payload.len()].copy_from_slice(&payload);
    let table = 0x1000;
    // First record: some other section.
    put_u32_be(&mut data, table + 8, 0x800);
    put_u32_be(&mut data, table + 16, 0x5555);
    // Second record: our section, compressed.
    put_u32_be(&mut data, table + 40 + 8, 0x800);
    put_u32_be(&mut data, table + 40 + 16, 0x4000);
    let mut img = Image::new(
        base,
        data,
        vec![section(".debug_line", 0x4000, sec_len)],
        vec![SymbolInfo {
            full_name: "__elf_section_headers".to_string(),
            address: 0x5000,
        }],
        vec![DataVariableInfo {
            address: 0x5000,
            width: 80,
            element_width: Some(40),
        }],
        4,
        Endianness::BigEndian,
        None,
    );
    let buf = create_section_reader(SectionId::DebugLine, &mut img, RunTimeEndian::Big, false)
        .unwrap();
    assert_eq!(buf.data, plain);
    assert_eq!(buf.endian, RunTimeEndian::Big);
}

#[test]
fn compressed_section_too_short_for_header_is_an_error() {
    // The section is marked compressed but is shorter than its own
    // compression header.
    let mut img = compressed_image_64(2, &[]);
    img.sections[0].len = 10;
    let r = create_section_reader(SectionId::DebugStr, &mut img, RunTimeEndian::Little, false);
    assert_eq!(r.unwrap_err(), Error::DecompressionError);
}

#[test]
fn missing_side_table_prerequisites_skip_detection() {
    // The sentinel symbol exists but no data variable is anchored there: the
    // section reads raw.
    let mut img = compressed_image_64(1, b"xyz");
    img.data_variables.clear();
    let buf = create_section_reader(SectionId::DebugStr, &mut img, RunTimeEndian::Little, false)
        .unwrap();
    assert_eq!(buf.data.len(), 24 + 3);
}
