use pe_parser::parser::{
    decode, ParserError, CHARACTERISTICS_SIZE, COFF_HEADER_SIZE, DOS_HEADER_SIZE, MACHINE_TYPE_SIZE,
    OPTIONAL_STANDARD_SIZE, OPTIONAL_STANDARD_SIZE_PLUS, OPTIONAL_WINDOWS_SIZE,
    OPTIONAL_WINDOWS_SIZE_PLUS, PE_SIGNATURE_SIZE, SECTION_SIZE,
};
use pe_parser::reader::{read_bytes, read_u16, read_u32, read_u64};
use pe_parser::specification::{
    Characteristics, DataDirectories, MachineType, OptionalMagic, SectionFlags, Subsystem,
};
use pe_parser::types::DataDirectory;

fn put16(b: &mut Vec<u8>, at: usize, v: u16) {
    b[at..at + 2].copy_from_slice(&v.to_le_bytes());
}

fn put32(b: &mut Vec<u8>, at: usize, v: u32) {
    b[at..at + 4].copy_from_slice(&v.to_le_bytes());
}

fn put64(b: &mut Vec<u8>, at: usize, v: u64) {
    b[at..at + 8].copy_from_slice(&v.to_le_bytes());
}

/// A DOS stub with `e_lfanew = 64` and a COFF header for AMD64 with no
/// optional header and no sections: 88 bytes.
fn minimal() -> Vec<u8> {
    let mut b = vec![0u8; 88];
    b[0] = 0x4D;
    b[1] = 0x5A;
    put32(&mut b, 60, 64);
    b[64..68].copy_from_slice(&[0x50, 0x45, 0x00, 0x00]);
    put16(&mut b, 68, 0x8664);
    b
}

/// `minimal` with an optional header of the given magic and size appended.
fn with_optional(magic: u16, len: usize) -> Vec<u8> {
    let mut b = minimal();
    put16(&mut b, 84, len as u16);
    b.resize(88 + len, 0);
    put16(&mut b, 88, magic);
    b
}

#[test]
fn size_check() {
    assert_eq!(MACHINE_TYPE_SIZE, 2);
    assert_eq!(CHARACTERISTICS_SIZE, 2);
    assert_eq!(COFF_HEADER_SIZE, 20);

    assert_eq!(OPTIONAL_STANDARD_SIZE, 28);
    assert_eq!(OPTIONAL_WINDOWS_SIZE, 196);
    assert_eq!(OPTIONAL_WINDOWS_SIZE_PLUS, 216);

    assert_eq!(DOS_HEADER_SIZE, 64);

    assert_eq!(SECTION_SIZE, 40);
    assert_eq!(PE_SIGNATURE_SIZE + COFF_HEADER_SIZE, 24);
    assert_eq!(OPTIONAL_STANDARD_SIZE_PLUS + OPTIONAL_WINDOWS_SIZE_PLUS, 240);
}

#[test]
fn minimal_image_decodes() {
    let b = minimal();
    let img = decode(&b).unwrap();
    assert_eq!(img.coff.machine, MachineType::AMD64);
    assert_eq!(img.coff.number_of_sections, 0);
    assert!(img.optional.is_none());
    assert!(img.sections.is_empty());
    assert!(!img.inconsistent_optional_header_size);
}

#[test]
fn wrong_dos_magic_fails() {
    let mut b = minimal();
    put16(&mut b, 0, 0x1234);
    assert_eq!(decode(&b).unwrap_err(), ParserError::InvalidDosMagic);
}

#[test]
fn e_lfanew_past_end_fails_out_of_bounds() {
    let mut b = minimal();
    put32(&mut b, 60, 1000);
    assert_eq!(
        decode(&b).unwrap_err(),
        ParserError::OutOfBounds { offset: 1000, length: 24, buffer_length: 88 }
    );
}

#[test]
fn wrong_coff_magic_fails() {
    let mut b = minimal();
    put32(&mut b, 64, 0);
    assert_eq!(decode(&b).unwrap_err(), ParserError::InvalidCoffMagic);
}

#[test]
fn pe32_plus_has_wide_image_base_and_no_base_of_data() {
    let mut b = with_optional(0x20b, 240);
    put64(&mut b, 88 + 24, 0x0000_0001_4000_0000);
    put32(&mut b, 88 + 32, 0x1000);
    put16(&mut b, 88 + 68, 3);
    put64(&mut b, 88 + 72, 0x10_0000);
    put32(&mut b, 88 + 108, 16);
    let img = decode(&b).unwrap();
    let h = img.optional.unwrap();
    assert_eq!(h.magic, OptionalMagic::PE32Plus);
    assert_eq!(h.base_of_data, None);
    assert_eq!(h.image_base, 0x0000_0001_4000_0000);
    assert_eq!(h.section_alignment, 0x1000);
    assert_eq!(h.subsystem, Subsystem::WindowsCUI);
    assert_eq!(h.mem_info.size_of_stack_reserve, 0x10_0000);
    assert_eq!(h.number_of_rva_and_sizes, 16);
    assert!(!img.inconsistent_optional_header_size);
}

#[test]
fn pe32_has_base_of_data() {
    let mut b = with_optional(0x10b, 224);
    put32(&mut b, 88 + 24, 0x2000);
    put32(&mut b, 88 + 28, 0x0040_0000);
    put32(&mut b, 88 + 72, 0x1234);
    let img = decode(&b).unwrap();
    let h = img.optional.unwrap();
    assert_eq!(h.magic, OptionalMagic::PE32);
    assert_eq!(h.base_of_data, Some(0x2000));
    assert_eq!(h.image_base, 0x0040_0000);
    assert_eq!(h.mem_info.size_of_stack_reserve, 0x1234);
}

#[test]
fn rom_magic_is_unsupported() {
    let b = with_optional(0x107, 224);
    assert_eq!(
        decode(&b).unwrap_err(),
        ParserError::UnsupportedOptionalMagic { value: 0x107 }
    );
}

#[test]
fn optional_header_cut_short_fails_out_of_bounds() {
    let mut b = with_optional(0x20b, 240);
    b.truncate(88 + 100);
    assert_eq!(
        decode(&b).unwrap_err(),
        ParserError::OutOfBounds { offset: 88, length: 240, buffer_length: 188 }
    );
}

#[test]
fn declared_size_mismatch_is_only_a_warning() {
    let mut b = with_optional(0x10b, 224);
    put16(&mut b, 84, 200);
    let img = decode(&b).unwrap();
    assert!(img.inconsistent_optional_header_size);
    assert_eq!(img.optional.unwrap().magic, OptionalMagic::PE32);
}

#[test]
fn directories_past_declared_count_are_absent() {
    let mut b = with_optional(0x10b, 224);
    put32(&mut b, 88 + 92, 2);
    // slot 1 (imports) and slot 5 (relocations), both with non-zero bytes
    put32(&mut b, 88 + 96 + 8, 0x3000);
    put32(&mut b, 88 + 96 + 12, 0x80);
    put32(&mut b, 88 + 96 + 40, 0x5000);
    put32(&mut b, 88 + 96 + 44, 0x10);
    let img = decode(&b).unwrap();
    let h = img.optional.unwrap();
    assert_eq!(h.directories.len(), 16);
    assert_eq!(
        h.directory(DataDirectories::ImportTable),
        Some(DataDirectory { virtual_address: 0x3000, size: 0x80 })
    );
    assert_eq!(
        h.directory(DataDirectories::ExportTable),
        Some(DataDirectory { virtual_address: 0, size: 0 })
    );
    assert_eq!(h.directory(DataDirectories::BaseRelocatingTable), None);
    assert_eq!(h.directory(DataDirectories::Reserved), None);
}

#[test]
fn directory_count_above_sixteen_is_clamped() {
    let mut b = with_optional(0x20b, 240);
    put32(&mut b, 88 + 108, 40);
    put32(&mut b, 88 + 112 + 15 * 8, 0x7000);
    let h = decode(&b).unwrap().optional.unwrap();
    assert_eq!(h.number_of_rva_and_sizes, 40);
    assert!(h.directories.iter().all(|d| d.is_some()));
    assert_eq!(
        h.directory(DataDirectories::Reserved),
        Some(DataDirectory { virtual_address: 0x7000, size: 0 })
    );
}

fn with_sections(count: u16) -> Vec<u8> {
    let mut b = minimal();
    put16(&mut b, 70, count);
    b.resize(88 + 40 * count as usize, 0);
    b
}

#[test]
fn truncated_section_table_fails() {
    let mut b = with_sections(3);
    b.truncate(88 + 2 * 40 + 10);
    assert_eq!(
        decode(&b).unwrap_err(),
        ParserError::TruncatedSectionTable { expected: 120, available: 90 }
    );
}

#[test]
fn sections_decode_and_resolve_their_data() {
    let mut b = with_sections(2);
    b[88..93].copy_from_slice(b".text");
    put32(&mut b, 88 + 8, 0x10);
    put32(&mut b, 88 + 16, 4);
    put32(&mut b, 88 + 20, 0);
    put32(&mut b, 88 + 36, 0x6000_0020);
    b[128..136].copy_from_slice(b"longname");
    put32(&mut b, 128 + 16, 8);
    put32(&mut b, 128 + 20, 1000);
    let img = decode(&b).unwrap();
    assert_eq!(img.sections.len(), 2);
    let text = &img.sections[0];
    assert_eq!(text.name, b".text\0\0\0".to_vec());
    assert_eq!(text.virtual_size, 0x10);
    assert!(text.characteristics.contains(SectionFlags::ContainsCode));
    assert!(text.characteristics.contains(SectionFlags::MemExecute));
    assert!(!text.characteristics.contains(SectionFlags::MemWrite));
    assert_eq!(text.data(&b).unwrap(), vec![0x4D, 0x5A, 0x00, 0x00]);
    let long = &img.sections[1];
    assert_eq!(long.name, b"longname".to_vec());
    assert_eq!(
        long.data(&b).unwrap_err(),
        ParserError::OutOfBounds { offset: 1000, length: 8, buffer_length: 168 }
    );
}

#[test]
fn timestamp_and_characteristics_are_read() {
    let mut b = minimal();
    put32(&mut b, 72, 0x5F5E_1000);
    put16(&mut b, 86, 0x2022);
    let img = decode(&b).unwrap();
    assert_eq!(img.coff.time_date_stamp, 0x5F5E_1000);
    assert_eq!(
        img.coff.characteristics.iter(),
        vec![
            Characteristics::ExecutableImage,
            Characteristics::LargeAddressAware,
            Characteristics::DLL
        ]
    );
}

#[test]
fn unknown_machine_is_kept_raw() {
    let mut b = minimal();
    put16(&mut b, 68, 0x1234);
    let img = decode(&b).unwrap();
    assert_eq!(img.coff.machine, MachineType::Other(0x1234));
    assert_eq!(img.coff.machine.value(), 0x1234);
}

#[test]
fn short_buffers_fail_out_of_bounds() {
    assert_eq!(
        decode(&[0x4D]).unwrap_err(),
        ParserError::OutOfBounds { offset: 0, length: 2, buffer_length: 1 }
    );
    assert_eq!(
        decode(&[0x4D, 0x5A, 0, 0]).unwrap_err(),
        ParserError::OutOfBounds { offset: 60, length: 4, buffer_length: 4 }
    );
}

#[test]
fn reader_is_little_endian_and_bounded() {
    let b = [0x01u8, 0x02, 0x03, 0x04, 0x05, 0x06, 0x07, 0x08];
    assert_eq!(read_u16(&b, 0), Ok(0x0201));
    assert_eq!(read_u32(&b, 4), Ok(0x0807_0605));
    assert_eq!(read_u64(&b, 0), Ok(0x0807_0605_0403_0201));
    assert_eq!(
        read_u32(&b, 6),
        Err(ParserError::OutOfBounds { offset: 6, length: 4, buffer_length: 8 })
    );
    assert_eq!(read_bytes(&b, 2, 3), Ok(vec![0x03, 0x04, 0x05]));
    assert_eq!(
        read_bytes(&b, usize::MAX, 2),
        Err(ParserError::OutOfBounds { offset: u64::MAX, length: 2, buffer_length: 8 })
    );
}
