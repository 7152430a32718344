use crate::collections::EnumSet;
use crate::specification::{Characteristics, DllCharacteristics, MachineType, OptionalMagic, SectionFlags, Subsystem};
use vstd::prelude::*;

verus! {

/// The two fields of the DOS stub that decoding reads.
#[derive(Clone, Copy, Debug, PartialEq, Eq, Structural)]
pub struct DosHeader {
    pub e_magic: u16,
    pub e_lfanew: u32,
}

/// The COFF header that follows the `PE\0\0` signature.
#[derive(Debug)]
pub struct CoffHeader {
    pub machine: MachineType,
    pub number_of_sections: u16,
    /// Seconds since 1970-01-01T00:00:00Z.
    pub time_date_stamp: u32,
    pub pointer_to_symbol_table: u32,
    pub number_of_symbols: u32,
    pub size_of_optional_header: u16,
    pub characteristics: EnumSet<Characteristics, u16>,
}

/// A major and minor version pair.
#[derive(Clone, Copy, Debug, PartialEq, Eq, Structural)]
pub struct Version<T> {
    pub major: T,
    pub minor: T,
}

#[derive(Clone, Copy, Debug, PartialEq, Eq, Structural)]
pub struct HeaderSizeInfo {
    pub of_code: u32,
    pub of_initialized_data: u32,
    pub of_unintialized_data: u32,
}

/// Stack and heap sizes, widened to 64 bits for the 32-bit variant.
#[derive(Clone, Copy, Debug, PartialEq, Eq, Structural)]
pub struct HeaderMemInfo {
    pub size_of_stack_reserve: u64,
    pub size_of_stack_commit: u64,
    pub size_of_heap_reserve: u64,
    pub size_of_heap_commit: u64,
}

#[derive(Clone, Copy, Debug, PartialEq, Eq, Structural)]
pub struct OptionalVersionsInfo {
    pub linker_ver: Version<u8>,
    pub os_version: Version<u16>,
    pub image_version: Version<u16>,
    pub subsystem_version: Version<u16>,
}

/// One (virtual address, size) entry of the data-directory table.
#[derive(Clone, Copy, Debug, PartialEq, Eq, Structural)]
pub struct DataDirectory {
    pub virtual_address: u32,
    pub size: u32,
}

/// The optional header of either word-size variant.
#[derive(Debug)]
pub struct Optional {
    pub magic: OptionalMagic,
    pub sizes: HeaderSizeInfo,
    pub entry_point: u32,
    pub base_of_code: u32,
    /// Present in the 32-bit variant only.
    pub base_of_data: Option<u32>,
    pub versions: OptionalVersionsInfo,
    /// Four bytes wide in the 32-bit variant, eight in the 64-bit one.
    pub image_base: u64,
    pub section_alignment: u32,
    pub file_alignment: u32,
    pub win32_version_value: u32,
    pub size_of_image: u32,
    pub size_of_headers: u32,
    pub checksum: u32,
    pub subsystem: Subsystem,
    pub dll_characteristics: EnumSet<DllCharacteristics, u16>,
    pub mem_info: HeaderMemInfo,
    pub loader_flags: u32,
    /// As stored; only the first `min(number_of_rva_and_sizes, 16)` slots count.
    pub number_of_rva_and_sizes: u32,
    /// Sixteen slots; `None` for each slot past the declared count.
    pub directories: Vec<Option<DataDirectory>>,
}

/// One record of the section table.
#[derive(Debug)]
pub struct Section {
    /// Eight raw bytes, NUL-padded, not necessarily text.
    pub name: Vec<u8>,
    pub virtual_size: u32,
    pub virtual_address: u32,
    pub size_of_raw_data: u32,
    pub pointer_to_raw_data: u32,
    pub pointer_to_relocations: u32,
    pub pointer_to_line_numbers: u32,
    pub number_of_relocations: u16,
    pub number_of_line_numbers: u16,
    pub characteristics: EnumSet<SectionFlags, u32>,
}

/// A decoded image header chain.
#[derive(Debug)]
pub struct Image {
    pub coff: CoffHeader,
    /// Absent when the COFF header declares an optional header of size zero.
    pub optional: Option<Optional>,
    pub sections: Vec<Section>,
    /// The declared optional-header size differs from the decoded variant's size.
    pub inconsistent_optional_header_size: bool,
}

} // verus!
