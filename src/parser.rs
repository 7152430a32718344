use crate::collections::EnumSet;
use crate::reader::{
    bytes_at, fits, in_bounds, le16, le32, le64, out_of_bounds, read_bytes, u16_at, u32_at, u64_at,
};
use crate::specification::{
    machine_type_of, subsystem_of, DataDirectories, MachineType, OptionalMagic, Subsystem,
};
use crate::types::{
    CoffHeader, DataDirectory, DosHeader, HeaderMemInfo, HeaderSizeInfo, Image, Optional,
    OptionalVersionsInfo, Section, Version,
};
use vstd::prelude::*;

verus! {

/// Why a buffer could not be decoded.
#[derive(Clone, Copy, Debug, PartialEq, Eq, Structural)]
pub enum ParserError {
    /// The first two bytes are not `4D 5A`.
    InvalidDosMagic,
    /// The four bytes at `e_lfanew` are not `50 45 00 00`.
    InvalidCoffMagic,
    /// A read of `length` bytes at `offset` would leave the buffer.
    OutOfBounds { offset: u64, length: u64, buffer_length: u64 },
    /// The optional header's magic is neither `10B` nor `20B`.
    UnsupportedOptionalMagic { value: u16 },
    /// The section table needs `expected` bytes; only `available` remain.
    TruncatedSectionTable { expected: u64, available: u64 },
}

/// Size of the DOS stub that holds `e_lfanew`.
pub const DOS_HEADER_SIZE: usize = 64;

/// Size of the `PE\0\0` signature in front of the COFF header.
pub const PE_SIGNATURE_SIZE: usize = 4;

/// Size of the COFF header after the signature.
pub const COFF_HEADER_SIZE: usize = 20;

/// Width of the machine-type field.
pub const MACHINE_TYPE_SIZE: usize = 2;

/// Width of the COFF characteristics field.
pub const CHARACTERISTICS_SIZE: usize = 2;

/// Size of the optional header's standard fields in the 32-bit variant,
/// magic and `base_of_data` included.
pub const OPTIONAL_STANDARD_SIZE: usize = 28;

/// Size of the optional header's standard fields in the 64-bit variant.
pub const OPTIONAL_STANDARD_SIZE_PLUS: usize = 24;

/// Size of the Windows-specific fields and data directories, 32-bit variant.
pub const OPTIONAL_WINDOWS_SIZE: usize = 196;

/// Size of the Windows-specific fields and data directories, 64-bit variant.
pub const OPTIONAL_WINDOWS_SIZE_PLUS: usize = 216;

/// Size of one section-table record.
pub const SECTION_SIZE: usize = 40;

/// Number of slots in the data-directory table.
pub const DATA_DIRS_COUNT: usize = 16;

pub open spec fn dos_magic_ok(b: Seq<u8>) -> bool {
    b[0] == 0x4D && b[1] == 0x5A
}

pub open spec fn pe_magic_ok(b: Seq<u8>, off: int) -> bool {
    b[off] == 0x50 && b[off + 1] == 0x45 && b[off + 2] == 0 && b[off + 3] == 0
}

/// The error of the DOS stub, if any.
pub open spec fn dos_error(b: Seq<u8>) -> Option<ParserError> {
    if !fits(b, 0, 2) {
        Some(out_of_bounds(b, 0, 2))
    } else if !dos_magic_ok(b) {
        Some(ParserError::InvalidDosMagic)
    } else if !fits(b, 60, 4) {
        Some(out_of_bounds(b, 60, 4))
    } else {
        None
    }
}

/// The error of the COFF header at `off`, if any.
pub open spec fn coff_error(b: Seq<u8>, off: int) -> Option<ParserError> {
    if !fits(b, off, 24) {
        Some(out_of_bounds(b, off, 24))
    } else if !pe_magic_ok(b, off) {
        Some(ParserError::InvalidCoffMagic)
    } else {
        None
    }
}

/// `c` holds the fields of the COFF header at `off`.
pub open spec fn coff_matches(b: Seq<u8>, off: int, c: CoffHeader) -> bool {
    &&& c.machine == machine_type_of(le16(b, off + 4) as u16)
    &&& c.number_of_sections as int == le16(b, off + 6)
    &&& c.time_date_stamp as int == le32(b, off + 8)
    &&& c.pointer_to_symbol_table as int == le32(b, off + 12)
    &&& c.number_of_symbols as int == le32(b, off + 16)
    &&& c.size_of_optional_header as int == le16(b, off + 20)
    &&& c.characteristics.raw() as int == le16(b, off + 22)
}

/// Reads the DOS stub: `e_magic` must be `4D 5A`.
pub fn parse_dos(b: &[u8]) -> (r: Result<DosHeader, ParserError>)
    ensures
        dos_error(b@) matches Some(e) ==> r == Err::<DosHeader, ParserError>(e),
        dos_error(b@) is None ==> (r matches Ok(d) && d.e_magic == 0x5A4D && d.e_lfanew as int
            == le32(b@, 60)),
{
    if !in_bounds(b, 0, 2) {
        return Err(ParserError::OutOfBounds { offset: 0, length: 2, buffer_length: b.len() as u64 });
    }
    if !(b[0] == 0x4D && b[1] == 0x5A) {
        return Err(ParserError::InvalidDosMagic);
    }
    if !in_bounds(b, 60, 4) {
        return Err(ParserError::OutOfBounds { offset: 60, length: 4, buffer_length: b.len() as u64 });
    }
    let e_magic = u16_at(b, 0);
    Ok(DosHeader { e_magic, e_lfanew: u32_at(b, 60) })
}

/// Reads the PE signature and COFF header at `off`.
pub fn parse_coff(b: &[u8], off: usize) -> (r: Result<CoffHeader, ParserError>)
    ensures
        coff_error(b@, off as int) matches Some(e) ==> r == Err::<CoffHeader, ParserError>(e),
        coff_error(b@, off as int) is None ==> (r matches Ok(c) && coff_matches(b@, off as int, c)),
{
    if !in_bounds(b, off, PE_SIGNATURE_SIZE + COFF_HEADER_SIZE) {
        return Err(
            ParserError::OutOfBounds { offset: off as u64, length: 24, buffer_length: b.len() as u64 },
        );
    }
    if !(b[off] == 0x50 && b[off + 1] == 0x45 && b[off + 2] == 0 && b[off + 3] == 0) {
        return Err(ParserError::InvalidCoffMagic);
    }
    Ok(
        CoffHeader {
            machine: MachineType::from_raw(u16_at(b, off + 4)),
            number_of_sections: u16_at(b, off + 6),
            time_date_stamp: u32_at(b, off + 8),
            pointer_to_symbol_table: u32_at(b, off + 12),
            number_of_symbols: u32_at(b, off + 16),
            size_of_optional_header: u16_at(b, off + 20),
            characteristics: EnumSet::from_raw(u16_at(b, off + 22)),
        },
    )
}


/// Full length of the optional header for the magic `m`: 224 bytes for `10B`,
/// 240 for `20B`.
pub open spec fn optional_len(m: int) -> int {
    if m == 0x10b {
        224
    } else {
        240
    }
}

/// The number of data-directory slots that count.
pub open spec fn valid_dirs(n: int) -> int {
    if n < 16 {
        n
    } else {
        16
    }
}

/// The error of the optional header at `off`, if any.
pub open spec fn optional_error(b: Seq<u8>, off: int) -> Option<ParserError> {
    if !fits(b, off, 2) {
        Some(out_of_bounds(b, off, 2))
    } else if le16(b, off) != 0x10b && le16(b, off) != 0x20b {
        Some(ParserError::UnsupportedOptionalMagic { value: le16(b, off) as u16 })
    } else if !fits(b, off, optional_len(le16(b, off))) {
        Some(out_of_bounds(b, off, optional_len(le16(b, off))))
    } else {
        None
    }
}

/// A field that is four bytes wide in the 32-bit variant and eight in the
/// 64-bit one, at `off32` or `off64`.
pub open spec fn wide(b: Seq<u8>, plus: bool, off32: int, off64: int) -> int {
    if plus {
        le64(b, off64)
    } else {
        le32(b, off32)
    }
}

/// The data directories of a table at `off` whose first `n` slots count.
pub open spec fn dirs_match(b: Seq<u8>, off: int, n: int, d: Seq<Option<DataDirectory>>) -> bool {
    &&& d.len() == 16
    &&& forall|i: int|
        0 <= i < 16 ==> #[trigger] d[i] == if i < valid_dirs(n) {
            Some(
                DataDirectory {
                    virtual_address: le32(b, off + 8 * i) as u32,
                    size: le32(b, off + 8 * i + 4) as u32,
                },
            )
        } else {
            None
        }
}

/// `h` holds the fields of the optional header at `off`.
pub open spec fn optional_matches(b: Seq<u8>, off: int, h: Optional) -> bool {
    let plus = h.magic == OptionalMagic::PE32Plus;
    let o = off;
    &&& (h.magic == OptionalMagic::PE32 && le16(b, o) == 0x10b) || (plus && le16(b, o) == 0x20b)
    &&& h.versions.linker_ver == Version::<u8> { major: b[o + 2], minor: b[o + 3] }
    &&& h.sizes.of_code as int == le32(b, o + 4)
    &&& h.sizes.of_initialized_data as int == le32(b, o + 8)
    &&& h.sizes.of_unintialized_data as int == le32(b, o + 12)
    &&& h.entry_point as int == le32(b, o + 16)
    &&& h.base_of_code as int == le32(b, o + 20)
    &&& h.base_of_data == if plus {
        None
    } else {
        Some(le32(b, o + 24) as u32)
    }
    &&& h.image_base as int == wide(b, plus, o + 28, o + 24)
    &&& h.section_alignment as int == le32(b, o + 32)
    &&& h.file_alignment as int == le32(b, o + 36)
    &&& h.versions.os_version.major as int == le16(b, o + 40)
    &&& h.versions.os_version.minor as int == le16(b, o + 42)
    &&& h.versions.image_version.major as int == le16(b, o + 44)
    &&& h.versions.image_version.minor as int == le16(b, o + 46)
    &&& h.versions.subsystem_version.major as int == le16(b, o + 48)
    &&& h.versions.subsystem_version.minor as int == le16(b, o + 50)
    &&& h.win32_version_value as int == le32(b, o + 52)
    &&& h.size_of_image as int == le32(b, o + 56)
    &&& h.size_of_headers as int == le32(b, o + 60)
    &&& h.checksum as int == le32(b, o + 64)
    &&& h.subsystem == subsystem_of(le16(b, o + 68) as u16)
    &&& h.dll_characteristics.raw() as int == le16(b, o + 70)
    &&& h.mem_info.size_of_stack_reserve as int == wide(b, plus, o + 72, o + 72)
    &&& h.mem_info.size_of_stack_commit as int == wide(b, plus, o + 76, o + 80)
    &&& h.mem_info.size_of_heap_reserve as int == wide(b, plus, o + 80, o + 88)
    &&& h.mem_info.size_of_heap_commit as int == wide(b, plus, o + 84, o + 96)
    &&& h.loader_flags as int == if plus {
        le32(b, o + 104)
    } else {
        le32(b, o + 88)
    }
    &&& h.number_of_rva_and_sizes as int == if plus {
        le32(b, o + 108)
    } else {
        le32(b, o + 92)
    }
    &&& dirs_match(
        b,
        if plus {
            o + 112
        } else {
            o + 96
        },
        h.number_of_rva_and_sizes as int,
        h.directories@,
    )
}

/// Reads the sixteen-slot data-directory table at `off`; the slots from
/// `min(n, 16)` on are absent whatever bytes they hold.
fn parse_directories(b: &[u8], off: usize, n: u32) -> (r: Vec<Option<DataDirectory>>)
    requires
        fits(b@, off as int, 128),
        b@.len() <= usize::MAX,
    ensures
        dirs_match(b@, off as int, n as int, r@),
{
    let valid: usize = if n < 16 {
        n as usize
    } else {
        DATA_DIRS_COUNT
    };
    let mut r: Vec<Option<DataDirectory>> = Vec::new();
    let mut i: usize = 0;
    while i < DATA_DIRS_COUNT
        invariant
            fits(b@, off as int, 128),
            b@.len() <= usize::MAX,
            valid as int == valid_dirs(n as int),
            i <= 16,
            r.len() == i,
            forall|j: int|
                0 <= j < i ==> #[trigger] r@[j] == if j < valid_dirs(n as int) {
                    Some(
                        DataDirectory {
                            virtual_address: le32(b@, off + 8 * j) as u32,
                            size: le32(b@, off + 8 * j + 4) as u32,
                        },
                    )
                } else {
                    None
                },
        decreases 16 - i,
    {
        if i < valid {
            let d = DataDirectory {
                virtual_address: u32_at(b, off + 8 * i),
                size: u32_at(b, off + 8 * i + 4),
            };
            r.push(Some(d));
        } else {
            r.push(None);
        }
        i = i + 1;
    }
    r
}

/// Reads a field that is four bytes wide in the 32-bit variant and eight in
/// the 64-bit one.
fn wide_at(b: &[u8], plus: bool, off32: usize, off64: usize) -> (r: u64)
    requires
        fits(b@, off32 as int, 4),
        fits(b@, off64 as int, 8),
    ensures
        r as int == wide(b@, plus, off32 as int, off64 as int),
{
    if plus {
        u64_at(b, off64)
    } else {
        u32_at(b, off32) as u64
    }
}

/// Reads the optional header at `off`. Its magic alone picks the variant;
/// `10B` and `20B` are the two that decode.
pub fn parse_optional(b: &[u8], off: usize) -> (r: Result<Optional, ParserError>)
    ensures
        optional_error(b@, off as int) matches Some(e) ==> r == Err::<Optional, ParserError>(e),
        optional_error(b@, off as int) is None ==> (r matches Ok(h) && optional_matches(
            b@,
            off as int,
            h,
        )),
{
    if !in_bounds(b, off, 2) {
        return Err(
            ParserError::OutOfBounds { offset: off as u64, length: 2, buffer_length: b.len() as u64 },
        );
    }
    let m = u16_at(b, off);
    let (magic, len): (OptionalMagic, usize) = if m == 0x10b {
        (OptionalMagic::PE32, OPTIONAL_STANDARD_SIZE + OPTIONAL_WINDOWS_SIZE)
    } else if m == 0x20b {
        (OptionalMagic::PE32Plus, OPTIONAL_STANDARD_SIZE_PLUS + OPTIONAL_WINDOWS_SIZE_PLUS)
    } else {
        return Err(ParserError::UnsupportedOptionalMagic { value: m });
    };
    if !in_bounds(b, off, len) {
        return Err(
            ParserError::OutOfBounds { offset: off as u64, length: len as u64, buffer_length: b.len() as u64 },
        );
    }
    let plus = m == 0x20b;
    let o = off;
    let (base_of_data, loader_at, count_at, dirs_at): (Option<u32>, usize, usize, usize) = if plus {
        (None, o + 104, o + 108, o + 112)
    } else {
        (Some(u32_at(b, o + 24)), o + 88, o + 92, o + 96)
    };
    let number_of_rva_and_sizes = u32_at(b, count_at);
    Ok(
        Optional {
            magic,
            sizes: HeaderSizeInfo {
                of_code: u32_at(b, o + 4),
                of_initialized_data: u32_at(b, o + 8),
                of_unintialized_data: u32_at(b, o + 12),
            },
            entry_point: u32_at(b, o + 16),
            base_of_code: u32_at(b, o + 20),
            base_of_data,
            versions: OptionalVersionsInfo {
                linker_ver: Version { major: b[o + 2], minor: b[o + 3] },
                os_version: Version { major: u16_at(b, o + 40), minor: u16_at(b, o + 42) },
                image_version: Version { major: u16_at(b, o + 44), minor: u16_at(b, o + 46) },
                subsystem_version: Version { major: u16_at(b, o + 48), minor: u16_at(b, o + 50) },
            },
            image_base: wide_at(b, plus, o + 28, o + 24),
            section_alignment: u32_at(b, o + 32),
            file_alignment: u32_at(b, o + 36),
            win32_version_value: u32_at(b, o + 52),
            size_of_image: u32_at(b, o + 56),
            size_of_headers: u32_at(b, o + 60),
            checksum: u32_at(b, o + 64),
            subsystem: Subsystem::from_raw(u16_at(b, o + 68)),
            dll_characteristics: EnumSet::from_raw(u16_at(b, o + 70)),
            mem_info: HeaderMemInfo {
                size_of_stack_reserve: wide_at(b, plus, o + 72, o + 72),
                size_of_stack_commit: wide_at(b, plus, o + 76, o + 80),
                size_of_heap_reserve: wide_at(b, plus, o + 80, o + 88),
                size_of_heap_commit: wide_at(b, plus, o + 84, o + 96),
            },
            loader_flags: u32_at(b, loader_at),
            number_of_rva_and_sizes,
            directories: parse_directories(b, dirs_at, number_of_rva_and_sizes),
        },
    )
}

/// `s` holds the fields of the section record at `off`.
pub open spec fn section_matches(b: Seq<u8>, off: int, s: Section) -> bool {
    &&& s.name@ == b.subrange(off, off + 8)
    &&& s.virtual_size as int == le32(b, off + 8)
    &&& s.virtual_address as int == le32(b, off + 12)
    &&& s.size_of_raw_data as int == le32(b, off + 16)
    &&& s.pointer_to_raw_data as int == le32(b, off + 20)
    &&& s.pointer_to_relocations as int == le32(b, off + 24)
    &&& s.pointer_to_line_numbers as int == le32(b, off + 28)
    &&& s.number_of_relocations as int == le16(b, off + 32)
    &&& s.number_of_line_numbers as int == le16(b, off + 34)
    &&& s.characteristics.raw() as int == le32(b, off + 36)
}

/// The error of a table of `n` section records at `off`, if any.
pub open spec fn table_error(b: Seq<u8>, off: int, n: int) -> Option<ParserError> {
    if !fits(b, off, 40 * n) {
        Some(
            ParserError::TruncatedSectionTable {
                expected: (40 * n) as u64,
                available: (b.len() - off) as u64,
            },
        )
    } else {
        None
    }
}

/// Reads one section record, known to lie inside `b`.
fn section_at(b: &[u8], off: usize) -> (r: Section)
    requires
        fits(b@, off as int, 40),
        b@.len() <= usize::MAX,
    ensures
        section_matches(b@, off as int, r),
{
    Section {
        name: bytes_at(b, off, 8),
        virtual_size: u32_at(b, off + 8),
        virtual_address: u32_at(b, off + 12),
        size_of_raw_data: u32_at(b, off + 16),
        pointer_to_raw_data: u32_at(b, off + 20),
        pointer_to_relocations: u32_at(b, off + 24),
        pointer_to_line_numbers: u32_at(b, off + 28),
        number_of_relocations: u16_at(b, off + 32),
        number_of_line_numbers: u16_at(b, off + 34),
        characteristics: EnumSet::from_raw(u32_at(b, off + 36)),
    }
}

/// Reads `count` consecutive 40-byte section records at `off`.
pub fn parse_sections(b: &[u8], off: usize, count: u16) -> (r: Result<Vec<Section>, ParserError>)
    requires
        off <= b@.len(),
    ensures
        table_error(b@, off as int, count as int) matches Some(e) ==> r == Err::<
            Vec<Section>,
            ParserError,
        >(e),
        table_error(b@, off as int, count as int) is None ==> (r matches Ok(v) && v.len()
            == count && forall|i: int|
            0 <= i < count ==> section_matches(b@, off + 40 * i, #[trigger] v@[i])),
{
    let needed: usize = count as usize * SECTION_SIZE;
    if !in_bounds(b, off, needed) {
        return Err(
            ParserError::TruncatedSectionTable {
                expected: needed as u64,
                available: (b.len() - off) as u64,
            },
        );
    }
    let mut v: Vec<Section> = Vec::new();
    let mut i: usize = 0;
    while i < count as usize
        invariant
            fits(b@, off as int, 40 * count),
            b@.len() <= usize::MAX,
            i <= count,
            v.len() == i,
            forall|j: int| 0 <= j < i ==> section_matches(b@, off + 40 * j, #[trigger] v@[j]),
        decreases count - i,
    {
        assert(40 * i + 40 <= 40 * count) by (nonlinear_arith)
            requires
                i < count,
        ;
        v.push(section_at(b, off + SECTION_SIZE * i));
        i = i + 1;
    }
    Ok(v)
}

/// Offset of the COFF header.
pub open spec fn lfanew(b: Seq<u8>) -> int {
    le32(b, 60)
}

/// Declared size of the optional header.
pub open spec fn optional_size(b: Seq<u8>) -> int {
    le16(b, lfanew(b) + 20)
}

/// Offset of the optional header.
pub open spec fn optional_off(b: Seq<u8>) -> int {
    lfanew(b) + 24
}

/// Declared number of sections.
pub open spec fn section_count(b: Seq<u8>) -> int {
    le16(b, lfanew(b) + 6)
}

/// Offset of the section table: right after the optional header as its
/// variant lays it out, or after the COFF header when there is none.
pub open spec fn table_off(b: Seq<u8>) -> int {
    if optional_size(b) == 0 {
        optional_off(b)
    } else {
        optional_off(b) + optional_len(le16(b, optional_off(b)))
    }
}

/// The first error that decoding `b` meets, if any.
pub open spec fn decode_error(b: Seq<u8>) -> Option<ParserError> {
    if dos_error(b) is Some {
        dos_error(b)
    } else if coff_error(b, lfanew(b)) is Some {
        coff_error(b, lfanew(b))
    } else if optional_size(b) != 0 && optional_error(b, optional_off(b)) is Some {
        optional_error(b, optional_off(b))
    } else {
        table_error(b, table_off(b), section_count(b))
    }
}

/// The buffer `b` decodes: an `MZ` stub, an in-bounds `e_lfanew` that
/// addresses `PE\0\0` and a whole COFF header, an optional header (when one
/// is declared) whose magic is `10B` or `20B` and that lies inside `b`, and a
/// section table that fits.
pub open spec fn decodes(b: Seq<u8>) -> bool {
    &&& fits(b, 0, 64)
    &&& dos_magic_ok(b)
    &&& fits(b, lfanew(b), 24)
    &&& pe_magic_ok(b, lfanew(b))
    &&& optional_size(b) != 0 ==> {
        &&& fits(b, optional_off(b), 2)
        &&& le16(b, optional_off(b)) == 0x10b || le16(b, optional_off(b)) == 0x20b
        &&& fits(b, optional_off(b), optional_len(le16(b, optional_off(b))))
    }
    &&& fits(b, table_off(b), 40 * section_count(b))
}

/// `img` holds what the header chain of `b` says.
pub open spec fn image_matches(b: Seq<u8>, img: Image) -> bool {
    &&& coff_matches(b, lfanew(b), img.coff)
    &&& (optional_size(b) == 0 <==> img.optional is None)
    &&& (img.optional matches Some(h) ==> optional_matches(b, optional_off(b), h))
    &&& img.sections.len() == section_count(b)
    &&& forall|i: int|
        0 <= i < section_count(b) ==> section_matches(
            b,
            table_off(b) + 40 * i,
            #[trigger] img.sections@[i],
        )
    &&& img.inconsistent_optional_header_size == (optional_size(b) != 0 && optional_size(b)
        != optional_len(le16(b, optional_off(b))))
}

/// Decodes the header chain of `b`: DOS stub, COFF header, optional header,
/// section table, in that order, stopping at the first error.
pub fn decode(b: &[u8]) -> (r: Result<Image, ParserError>)
    ensures
        r is Ok <==> decodes(b@),
        decode_error(b@) matches Some(e) ==> r == Err::<Image, ParserError>(e),
        decode_error(b@) is None ==> (r matches Ok(img) && image_matches(b@, img)),
{
    let _n = b.len();
    let dos = match parse_dos(b) {
        Ok(d) => d,
        Err(e) => return Err(e),
    };
    let coff_at = dos.e_lfanew as usize;
    let coff = match parse_coff(b, coff_at) {
        Ok(c) => c,
        Err(e) => return Err(e),
    };
    let opt_at = coff_at + PE_SIGNATURE_SIZE + COFF_HEADER_SIZE;
    let declared = coff.size_of_optional_header;
    let mut inconsistent = false;
    let mut table_at = opt_at;
    let optional = if declared == 0 {
        None
    } else {
        match parse_optional(b, opt_at) {
            Ok(h) => {
                let len: usize = if h.magic == OptionalMagic::PE32Plus {
                    OPTIONAL_STANDARD_SIZE_PLUS + OPTIONAL_WINDOWS_SIZE_PLUS
                } else {
                    OPTIONAL_STANDARD_SIZE + OPTIONAL_WINDOWS_SIZE
                };
                inconsistent = declared as usize != len;
                table_at = opt_at + len;
                Some(h)
            },
            Err(e) => return Err(e),
        }
    };
    let sections = match parse_sections(b, table_at, coff.number_of_sections) {
        Ok(v) => v,
        Err(e) => return Err(e),
    };
    Ok(Image { coff, optional, sections, inconsistent_optional_header_size: inconsistent })
}

impl Section {
    /// The section's raw bytes, `pointer_to_raw_data .. + size_of_raw_data`
    /// of `b`, read only when asked for.
    pub fn data(&self, b: &[u8]) -> (r: Result<Vec<u8>, ParserError>)
        ensures
            fits(b@, self.pointer_to_raw_data as int, self.size_of_raw_data as int) ==> (r matches Ok(
                v,
            ) && v@ == b@.subrange(
                self.pointer_to_raw_data as int,
                self.pointer_to_raw_data + self.size_of_raw_data,
            )),
            !fits(b@, self.pointer_to_raw_data as int, self.size_of_raw_data as int) ==> r == Err::<
                Vec<u8>,
                ParserError,
            >(
                out_of_bounds(
                    b@,
                    self.pointer_to_raw_data as int,
                    self.size_of_raw_data as int,
                ),
            ),
    {
        read_bytes(b, self.pointer_to_raw_data as usize, self.size_of_raw_data as usize)
    }
}

impl Optional {
    /// The directory in the slot `which`; `None` when the slot lies past the
    /// declared count.
    pub fn directory(&self, which: DataDirectories) -> (r: Option<DataDirectory>)
        requires
            self.directories.len() == 16,
        ensures
            r == self.directories@[which.spec_index() as int],
    {
        self.directories[which.index()]
    }
}

/// In a decoded image, a data directory is present exactly when its slot is
/// among the first `min(number_of_rva_and_sizes, 16)`, whatever bytes the
/// other slots hold.
pub proof fn lemma_directories_present(b: Seq<u8>, img: Image)
    requires
        image_matches(b, img),
        img.optional is Some,
    ensures
        ({
            let h = img.optional->Some_0;
            &&& h.directories.len() == 16
            &&& forall|i: int|
                0 <= i < 16 ==> (#[trigger] h.directories@[i] is Some <==> i < valid_dirs(
                    h.number_of_rva_and_sizes as int,
                ))
        }),
{
    let h = img.optional->Some_0;
    assert forall|i: int| 0 <= i < 16 implies (#[trigger] h.directories@[i] is Some <==> i
        < valid_dirs(h.number_of_rva_and_sizes as int)) by {}
}

} // verus!
