use crate::collections::{SuitableEnum, SuitableNumber};
use vstd::prelude::*;

verus! {

/// The target machine named in the COFF header.
#[derive(Clone, Copy, Debug, PartialEq, Eq, Structural)]
pub enum MachineType {
    Unknown,
    Alpha,
    Alpha64OrAXP64,
    AM33,
    AMD64,
    ARM,
    ARM64,
    ARMNT,
    EBC,
    I386,
    IA64,
    LoongArch32,
    LoongArch64,
    M32R,
    MIPS16,
    MIPSFPU,
    MIPSFPU16,
    PowerPC,
    PowerPCFP,
    R4000,
    RISCV32,
    RISCV64,
    RISCV128,
    SH3,
    SH3DSP,
    SH4,
    SH5,
    Thumb,
    WCEMIPSV2,
    /// A value that no variant names, kept as it was stored.
    Other(u16),
}

/// The variant that the raw value `v` stands for.
pub open spec fn machine_type_of(v: u16) -> MachineType {
    if v == 0 {
        MachineType::Unknown
    } else if v == 0x184 {
        MachineType::Alpha
    } else if v == 0x284 {
        MachineType::Alpha64OrAXP64
    } else if v == 0x1d3 {
        MachineType::AM33
    } else if v == 0x8664 {
        MachineType::AMD64
    } else if v == 0x1c0 {
        MachineType::ARM
    } else if v == 0xaa64 {
        MachineType::ARM64
    } else if v == 0x1c4 {
        MachineType::ARMNT
    } else if v == 0xebc {
        MachineType::EBC
    } else if v == 0x14c {
        MachineType::I386
    } else if v == 0x200 {
        MachineType::IA64
    } else if v == 0x6232 {
        MachineType::LoongArch32
    } else if v == 0x6424 {
        MachineType::LoongArch64
    } else if v == 0x9041 {
        MachineType::M32R
    } else if v == 0x266 {
        MachineType::MIPS16
    } else if v == 0x366 {
        MachineType::MIPSFPU
    } else if v == 0x466 {
        MachineType::MIPSFPU16
    } else if v == 0x1f0 {
        MachineType::PowerPC
    } else if v == 0x1f1 {
        MachineType::PowerPCFP
    } else if v == 0x166 {
        MachineType::R4000
    } else if v == 0x5032 {
        MachineType::RISCV32
    } else if v == 0x5064 {
        MachineType::RISCV64
    } else if v == 0x5128 {
        MachineType::RISCV128
    } else if v == 0x1a2 {
        MachineType::SH3
    } else if v == 0x1a3 {
        MachineType::SH3DSP
    } else if v == 0x1a6 {
        MachineType::SH4
    } else if v == 0x1a8 {
        MachineType::SH5
    } else if v == 0x1c2 {
        MachineType::Thumb
    } else if v == 0x169 {
        MachineType::WCEMIPSV2
    } else {
        MachineType::Other(v)
    }
}

impl MachineType {
    /// The raw value of this variant.
    pub open spec fn spec_value(self) -> u16 {
        match self {
            MachineType::Unknown => 0,
            MachineType::Alpha => 0x184,
            MachineType::Alpha64OrAXP64 => 0x284,
            MachineType::AM33 => 0x1d3,
            MachineType::AMD64 => 0x8664,
            MachineType::ARM => 0x1c0,
            MachineType::ARM64 => 0xaa64,
            MachineType::ARMNT => 0x1c4,
            MachineType::EBC => 0xebc,
            MachineType::I386 => 0x14c,
            MachineType::IA64 => 0x200,
            MachineType::LoongArch32 => 0x6232,
            MachineType::LoongArch64 => 0x6424,
            MachineType::M32R => 0x9041,
            MachineType::MIPS16 => 0x266,
            MachineType::MIPSFPU => 0x366,
            MachineType::MIPSFPU16 => 0x466,
            MachineType::PowerPC => 0x1f0,
            MachineType::PowerPCFP => 0x1f1,
            MachineType::R4000 => 0x166,
            MachineType::RISCV32 => 0x5032,
            MachineType::RISCV64 => 0x5064,
            MachineType::RISCV128 => 0x5128,
            MachineType::SH3 => 0x1a2,
            MachineType::SH3DSP => 0x1a3,
            MachineType::SH4 => 0x1a6,
            MachineType::SH5 => 0x1a8,
            MachineType::Thumb => 0x1c2,
            MachineType::WCEMIPSV2 => 0x169,
            MachineType::Other(v) => v,
        }
    }

    /// The variant for a stored value; one that no variant names is kept.
    pub fn from_raw(v: u16) -> (r: MachineType)
        ensures
            r == machine_type_of(v),
            r.spec_value() == v,
    {
        match v {
            0 => MachineType::Unknown,
            0x184 => MachineType::Alpha,
            0x284 => MachineType::Alpha64OrAXP64,
            0x1d3 => MachineType::AM33,
            0x8664 => MachineType::AMD64,
            0x1c0 => MachineType::ARM,
            0xaa64 => MachineType::ARM64,
            0x1c4 => MachineType::ARMNT,
            0xebc => MachineType::EBC,
            0x14c => MachineType::I386,
            0x200 => MachineType::IA64,
            0x6232 => MachineType::LoongArch32,
            0x6424 => MachineType::LoongArch64,
            0x9041 => MachineType::M32R,
            0x266 => MachineType::MIPS16,
            0x366 => MachineType::MIPSFPU,
            0x466 => MachineType::MIPSFPU16,
            0x1f0 => MachineType::PowerPC,
            0x1f1 => MachineType::PowerPCFP,
            0x166 => MachineType::R4000,
            0x5032 => MachineType::RISCV32,
            0x5064 => MachineType::RISCV64,
            0x5128 => MachineType::RISCV128,
            0x1a2 => MachineType::SH3,
            0x1a3 => MachineType::SH3DSP,
            0x1a6 => MachineType::SH4,
            0x1a8 => MachineType::SH5,
            0x1c2 => MachineType::Thumb,
            0x169 => MachineType::WCEMIPSV2,
            _ => MachineType::Other(v),
        }
    }

    /// The value as stored.
    pub fn value(&self) -> (r: u16)
        ensures
            r == self.spec_value(),
    {
        match *self {
            MachineType::Unknown => 0,
            MachineType::Alpha => 0x184,
            MachineType::Alpha64OrAXP64 => 0x284,
            MachineType::AM33 => 0x1d3,
            MachineType::AMD64 => 0x8664,
            MachineType::ARM => 0x1c0,
            MachineType::ARM64 => 0xaa64,
            MachineType::ARMNT => 0x1c4,
            MachineType::EBC => 0xebc,
            MachineType::I386 => 0x14c,
            MachineType::IA64 => 0x200,
            MachineType::LoongArch32 => 0x6232,
            MachineType::LoongArch64 => 0x6424,
            MachineType::M32R => 0x9041,
            MachineType::MIPS16 => 0x266,
            MachineType::MIPSFPU => 0x366,
            MachineType::MIPSFPU16 => 0x466,
            MachineType::PowerPC => 0x1f0,
            MachineType::PowerPCFP => 0x1f1,
            MachineType::R4000 => 0x166,
            MachineType::RISCV32 => 0x5032,
            MachineType::RISCV64 => 0x5064,
            MachineType::RISCV128 => 0x5128,
            MachineType::SH3 => 0x1a2,
            MachineType::SH3DSP => 0x1a3,
            MachineType::SH4 => 0x1a6,
            MachineType::SH5 => 0x1a8,
            MachineType::Thumb => 0x1c2,
            MachineType::WCEMIPSV2 => 0x169,
            MachineType::Other(v) => v,
        }
    }
}

/// Flags of the COFF header's characteristics field.
#[derive(Clone, Copy, Debug, PartialEq, Eq, Structural)]
pub enum Characteristics {
    RelocsStripped,
    ExecutableImage,
    LineNumsStripped,
    LocalSymsStripped,
    AgressiveWSTrim,
    LargeAddressAware,
    LittleEndian,
    Machine32bit,
    DebugStripped,
    RemovableRunFromSwap,
    FileSystem,
    DLL,
    UpSystemOnly,
    BigEndian,
}

impl SuitableEnum<u16> for Characteristics {
    open spec fn spec_into(self) -> u16 {
        match self {
            Characteristics::RelocsStripped => 0x0001,
            Characteristics::ExecutableImage => 0x0002,
            Characteristics::LineNumsStripped => 0x0004,
            Characteristics::LocalSymsStripped => 0x0008,
            Characteristics::AgressiveWSTrim => 0x0010,
            Characteristics::LargeAddressAware => 0x0020,
            Characteristics::LittleEndian => 0x0080,
            Characteristics::Machine32bit => 0x0100,
            Characteristics::DebugStripped => 0x0200,
            Characteristics::RemovableRunFromSwap => 0x0800,
            Characteristics::FileSystem => 0x1000,
            Characteristics::DLL => 0x2000,
            Characteristics::UpSystemOnly => 0x4000,
            Characteristics::BigEndian => 0x8000,
        }
    }

    open spec fn declared() -> Seq<Characteristics> {
        seq![
            Characteristics::RelocsStripped,
            Characteristics::ExecutableImage,
            Characteristics::LineNumsStripped,
            Characteristics::LocalSymsStripped,
            Characteristics::AgressiveWSTrim,
            Characteristics::LargeAddressAware,
            Characteristics::LittleEndian,
            Characteristics::Machine32bit,
            Characteristics::DebugStripped,
            Characteristics::RemovableRunFromSwap,
            Characteristics::FileSystem,
            Characteristics::DLL,
            Characteristics::UpSystemOnly,
            Characteristics::BigEndian,
        ]
    }

    fn into_repr(self) -> (r: u16) {
        match self {
            Characteristics::RelocsStripped => 0x0001,
            Characteristics::ExecutableImage => 0x0002,
            Characteristics::LineNumsStripped => 0x0004,
            Characteristics::LocalSymsStripped => 0x0008,
            Characteristics::AgressiveWSTrim => 0x0010,
            Characteristics::LargeAddressAware => 0x0020,
            Characteristics::LittleEndian => 0x0080,
            Characteristics::Machine32bit => 0x0100,
            Characteristics::DebugStripped => 0x0200,
            Characteristics::RemovableRunFromSwap => 0x0800,
            Characteristics::FileSystem => 0x1000,
            Characteristics::DLL => 0x2000,
            Characteristics::UpSystemOnly => 0x4000,
            Characteristics::BigEndian => 0x8000,
        }
    }

    fn variants() -> (r: Vec<Characteristics>) {
        let r = vec![
            Characteristics::RelocsStripped,
            Characteristics::ExecutableImage,
            Characteristics::LineNumsStripped,
            Characteristics::LocalSymsStripped,
            Characteristics::AgressiveWSTrim,
            Characteristics::LargeAddressAware,
            Characteristics::LittleEndian,
            Characteristics::Machine32bit,
            Characteristics::DebugStripped,
            Characteristics::RemovableRunFromSwap,
            Characteristics::FileSystem,
            Characteristics::DLL,
            Characteristics::UpSystemOnly,
            Characteristics::BigEndian,
        ];
        assert(r@ =~= Self::declared());
        r
    }

    proof fn lemma_declared(k: Characteristics) {
        let d = Self::declared();
        match k {
            Characteristics::RelocsStripped => assert(d[0] == k),
            Characteristics::ExecutableImage => assert(d[1] == k),
            Characteristics::LineNumsStripped => assert(d[2] == k),
            Characteristics::LocalSymsStripped => assert(d[3] == k),
            Characteristics::AgressiveWSTrim => assert(d[4] == k),
            Characteristics::LargeAddressAware => assert(d[5] == k),
            Characteristics::LittleEndian => assert(d[6] == k),
            Characteristics::Machine32bit => assert(d[7] == k),
            Characteristics::DebugStripped => assert(d[8] == k),
            Characteristics::RemovableRunFromSwap => assert(d[9] == k),
            Characteristics::FileSystem => assert(d[10] == k),
            Characteristics::DLL => assert(d[11] == k),
            Characteristics::UpSystemOnly => assert(d[12] == k),
            Characteristics::BigEndian => assert(d[13] == k),
        }
    }

    proof fn lemma_declared_distinct() {
        let d = Self::declared();
        assert forall|i: int, j: int| 0 <= i < d.len() && 0 <= j < d.len() && i != j implies d[i] != d[j] by {
            assert(d[i].spec_into() != d[j].spec_into());
        }
    }
}

/// The word-size variant of the optional header, chosen by its magic.
#[derive(Clone, Copy, Debug, PartialEq, Eq, Structural)]
pub enum OptionalMagic {
    PE32,
    PE32Plus,
    ROM,
}

impl OptionalMagic {
    pub open spec fn spec_value(self) -> u16 {
        match self {
            OptionalMagic::PE32 => 0x10b,
            OptionalMagic::PE32Plus => 0x20b,
            OptionalMagic::ROM => 0x107,
        }
    }

    pub fn value(&self) -> (r: u16)
        ensures
            r == self.spec_value(),
    {
        match *self {
            OptionalMagic::PE32 => 0x10b,
            OptionalMagic::PE32Plus => 0x20b,
            OptionalMagic::ROM => 0x107,
        }
    }
}

/// The subsystem that an image needs to run.
#[derive(Clone, Copy, Debug, PartialEq, Eq, Structural)]
pub enum Subsystem {
    Unknown,
    Native,
    WindowsGUI,
    WindowsCUI,
    OS2CUI,
    POSIXCUI,
    NativeWindows,
    WindowsCE,
    EFIApplication,
    EFIBootServiceDriver,
    EFIRuntimeDriver,
    EFIROM,
    XBOX,
    WindowsBootApplication,
    /// A value that no variant names, kept as it was stored.
    Other(u16),
}

/// The variant that the raw value `v` stands for.
pub open spec fn subsystem_of(v: u16) -> Subsystem {
    if v == 0 {
        Subsystem::Unknown
    } else if v == 1 {
        Subsystem::Native
    } else if v == 2 {
        Subsystem::WindowsGUI
    } else if v == 3 {
        Subsystem::WindowsCUI
    } else if v == 5 {
        Subsystem::OS2CUI
    } else if v == 7 {
        Subsystem::POSIXCUI
    } else if v == 8 {
        Subsystem::NativeWindows
    } else if v == 9 {
        Subsystem::WindowsCE
    } else if v == 10 {
        Subsystem::EFIApplication
    } else if v == 11 {
        Subsystem::EFIBootServiceDriver
    } else if v == 12 {
        Subsystem::EFIRuntimeDriver
    } else if v == 13 {
        Subsystem::EFIROM
    } else if v == 14 {
        Subsystem::XBOX
    } else if v == 16 {
        Subsystem::WindowsBootApplication
    } else {
        Subsystem::Other(v)
    }
}

impl Subsystem {
    /// The raw value of this variant.
    pub open spec fn spec_value(self) -> u16 {
        match self {
            Subsystem::Unknown => 0,
            Subsystem::Native => 1,
            Subsystem::WindowsGUI => 2,
            Subsystem::WindowsCUI => 3,
            Subsystem::OS2CUI => 5,
            Subsystem::POSIXCUI => 7,
            Subsystem::NativeWindows => 8,
            Subsystem::WindowsCE => 9,
            Subsystem::EFIApplication => 10,
            Subsystem::EFIBootServiceDriver => 11,
            Subsystem::EFIRuntimeDriver => 12,
            Subsystem::EFIROM => 13,
            Subsystem::XBOX => 14,
            Subsystem::WindowsBootApplication => 16,
            Subsystem::Other(v) => v,
        }
    }

    /// The variant for a stored value; one that no variant names is kept.
    pub fn from_raw(v: u16) -> (r: Subsystem)
        ensures
            r == subsystem_of(v),
            r.spec_value() == v,
    {
        match v {
            0 => Subsystem::Unknown,
            1 => Subsystem::Native,
            2 => Subsystem::WindowsGUI,
            3 => Subsystem::WindowsCUI,
            5 => Subsystem::OS2CUI,
            7 => Subsystem::POSIXCUI,
            8 => Subsystem::NativeWindows,
            9 => Subsystem::WindowsCE,
            10 => Subsystem::EFIApplication,
            11 => Subsystem::EFIBootServiceDriver,
            12 => Subsystem::EFIRuntimeDriver,
            13 => Subsystem::EFIROM,
            14 => Subsystem::XBOX,
            16 => Subsystem::WindowsBootApplication,
            _ => Subsystem::Other(v),
        }
    }

    /// The value as stored.
    pub fn value(&self) -> (r: u16)
        ensures
            r == self.spec_value(),
    {
        match *self {
            Subsystem::Unknown => 0,
            Subsystem::Native => 1,
            Subsystem::WindowsGUI => 2,
            Subsystem::WindowsCUI => 3,
            Subsystem::OS2CUI => 5,
            Subsystem::POSIXCUI => 7,
            Subsystem::NativeWindows => 8,
            Subsystem::WindowsCE => 9,
            Subsystem::EFIApplication => 10,
            Subsystem::EFIBootServiceDriver => 11,
            Subsystem::EFIRuntimeDriver => 12,
            Subsystem::EFIROM => 13,
            Subsystem::XBOX => 14,
            Subsystem::WindowsBootApplication => 16,
            Subsystem::Other(v) => v,
        }
    }
}

/// Flags of the optional header's DLL characteristics field.
#[derive(Clone, Copy, Debug, PartialEq, Eq, Structural)]
pub enum DllCharacteristics {
    HighEntropyVA,
    DynamicBase,
    ForceIntegrity,
    NXCompatible,
    NoIsolation,
    NoSEH,
    NoBind,
    AppContainer,
    WDMDriver,
    GuardCF,
    TerminalServerAware,
}

impl SuitableEnum<u16> for DllCharacteristics {
    open spec fn spec_into(self) -> u16 {
        match self {
            DllCharacteristics::HighEntropyVA => 0x0020,
            DllCharacteristics::DynamicBase => 0x0040,
            DllCharacteristics::ForceIntegrity => 0x0080,
            DllCharacteristics::NXCompatible => 0x0100,
            DllCharacteristics::NoIsolation => 0x0200,
            DllCharacteristics::NoSEH => 0x0400,
            DllCharacteristics::NoBind => 0x0800,
            DllCharacteristics::AppContainer => 0x1000,
            DllCharacteristics::WDMDriver => 0x2000,
            DllCharacteristics::GuardCF => 0x4000,
            DllCharacteristics::TerminalServerAware => 0x8000,
        }
    }

    open spec fn declared() -> Seq<DllCharacteristics> {
        seq![
            DllCharacteristics::HighEntropyVA,
            DllCharacteristics::DynamicBase,
            DllCharacteristics::ForceIntegrity,
            DllCharacteristics::NXCompatible,
            DllCharacteristics::NoIsolation,
            DllCharacteristics::NoSEH,
            DllCharacteristics::NoBind,
            DllCharacteristics::AppContainer,
            DllCharacteristics::WDMDriver,
            DllCharacteristics::GuardCF,
            DllCharacteristics::TerminalServerAware,
        ]
    }

    fn into_repr(self) -> (r: u16) {
        match self {
            DllCharacteristics::HighEntropyVA => 0x0020,
            DllCharacteristics::DynamicBase => 0x0040,
            DllCharacteristics::ForceIntegrity => 0x0080,
            DllCharacteristics::NXCompatible => 0x0100,
            DllCharacteristics::NoIsolation => 0x0200,
            DllCharacteristics::NoSEH => 0x0400,
            DllCharacteristics::NoBind => 0x0800,
            DllCharacteristics::AppContainer => 0x1000,
            DllCharacteristics::WDMDriver => 0x2000,
            DllCharacteristics::GuardCF => 0x4000,
            DllCharacteristics::TerminalServerAware => 0x8000,
        }
    }

    fn variants() -> (r: Vec<DllCharacteristics>) {
        let r = vec![
            DllCharacteristics::HighEntropyVA,
            DllCharacteristics::DynamicBase,
            DllCharacteristics::ForceIntegrity,
            DllCharacteristics::NXCompatible,
            DllCharacteristics::NoIsolation,
            DllCharacteristics::NoSEH,
            DllCharacteristics::NoBind,
            DllCharacteristics::AppContainer,
            DllCharacteristics::WDMDriver,
            DllCharacteristics::GuardCF,
            DllCharacteristics::TerminalServerAware,
        ];
        assert(r@ =~= Self::declared());
        r
    }

    proof fn lemma_declared(k: DllCharacteristics) {
        let d = Self::declared();
        match k {
            DllCharacteristics::HighEntropyVA => assert(d[0] == k),
            DllCharacteristics::DynamicBase => assert(d[1] == k),
            DllCharacteristics::ForceIntegrity => assert(d[2] == k),
            DllCharacteristics::NXCompatible => assert(d[3] == k),
            DllCharacteristics::NoIsolation => assert(d[4] == k),
            DllCharacteristics::NoSEH => assert(d[5] == k),
            DllCharacteristics::NoBind => assert(d[6] == k),
            DllCharacteristics::AppContainer => assert(d[7] == k),
            DllCharacteristics::WDMDriver => assert(d[8] == k),
            DllCharacteristics::GuardCF => assert(d[9] == k),
            DllCharacteristics::TerminalServerAware => assert(d[10] == k),
        }
    }

    proof fn lemma_declared_distinct() {
        let d = Self::declared();
        assert forall|i: int, j: int| 0 <= i < d.len() && 0 <= j < d.len() && i != j implies d[i] != d[j] by {
            assert(d[i].spec_into() != d[j].spec_into());
        }
    }
}

/// The sixteen slots of the data-directory table, in table order.
#[derive(Clone, Copy, Debug, PartialEq, Eq, Hash, Structural)]
pub enum DataDirectories {
    ExportTable,
    ImportTable,
    ResourceTable,
    ExceptionTable,
    CertificateTable,
    BaseRelocatingTable,
    Debug,
    Architecture,
    GlobalPtr,
    TLSTable,
    LoadConfigTable,
    BoundImport,
    IAT,
    DelayImportDescriptor,
    CLRRuntimeHeader,
    Reserved,
}

impl DataDirectories {
    /// The slot's position in the table.
    pub open spec fn spec_index(self) -> nat {
        match self {
            DataDirectories::ExportTable => 0,
            DataDirectories::ImportTable => 1,
            DataDirectories::ResourceTable => 2,
            DataDirectories::ExceptionTable => 3,
            DataDirectories::CertificateTable => 4,
            DataDirectories::BaseRelocatingTable => 5,
            DataDirectories::Debug => 6,
            DataDirectories::Architecture => 7,
            DataDirectories::GlobalPtr => 8,
            DataDirectories::TLSTable => 9,
            DataDirectories::LoadConfigTable => 10,
            DataDirectories::BoundImport => 11,
            DataDirectories::IAT => 12,
            DataDirectories::DelayImportDescriptor => 13,
            DataDirectories::CLRRuntimeHeader => 14,
            DataDirectories::Reserved => 15,
        }
    }

    pub fn index(&self) -> (r: usize)
        ensures
            r == self.spec_index(),
            r < 16,
    {
        match *self {
            DataDirectories::ExportTable => 0,
            DataDirectories::ImportTable => 1,
            DataDirectories::ResourceTable => 2,
            DataDirectories::ExceptionTable => 3,
            DataDirectories::CertificateTable => 4,
            DataDirectories::BaseRelocatingTable => 5,
            DataDirectories::Debug => 6,
            DataDirectories::Architecture => 7,
            DataDirectories::GlobalPtr => 8,
            DataDirectories::TLSTable => 9,
            DataDirectories::LoadConfigTable => 10,
            DataDirectories::BoundImport => 11,
            DataDirectories::IAT => 12,
            DataDirectories::DelayImportDescriptor => 13,
            DataDirectories::CLRRuntimeHeader => 14,
            DataDirectories::Reserved => 15,
        }
    }
}

/// Flags of a section header's characteristics field. The alignment values
/// span several bits; they are tested like the others, by overlap.
#[derive(Clone, Copy, Debug, PartialEq, Eq, Structural)]
pub enum SectionFlags {
    TypeNoPad,
    ContainsCode,
    ContainsInitializedData,
    ContainsUnitializedData,
    Info,
    Remove,
    COMDAT,
    GPRelative,
    Align1Byte,
    Align2Bytes,
    Align4Bytes,
    Align8Bytes,
    Align16Bytes,
    Align32Bytes,
    Align64Bytes,
    Align128Bytes,
    Align256Bytes,
    Align512Bytes,
    Align1024Bytes,
    Align2048Bytes,
    Align4096Bytes,
    Align8192Bytes,
    NRelocOVFL,
    MemDiscardable,
    MemNotCached,
    MemNotPaged,
    MemShared,
    MemExecute,
    MemRead,
    MemWrite,
}

impl SuitableEnum<u32> for SectionFlags {
    open spec fn spec_into(self) -> u32 {
        match self {
            SectionFlags::TypeNoPad => 0x00000008,
            SectionFlags::ContainsCode => 0x00000020,
            SectionFlags::ContainsInitializedData => 0x00000040,
            SectionFlags::ContainsUnitializedData => 0x00000080,
            SectionFlags::Info => 0x00000200,
            SectionFlags::Remove => 0x00000800,
            SectionFlags::COMDAT => 0x00001000,
            SectionFlags::GPRelative => 0x00008000,
            SectionFlags::Align1Byte => 0x00100000,
            SectionFlags::Align2Bytes => 0x00200000,
            SectionFlags::Align4Bytes => 0x00300000,
            SectionFlags::Align8Bytes => 0x00400000,
            SectionFlags::Align16Bytes => 0x00500000,
            SectionFlags::Align32Bytes => 0x00600000,
            SectionFlags::Align64Bytes => 0x00700000,
            SectionFlags::Align128Bytes => 0x00800000,
            SectionFlags::Align256Bytes => 0x00900000,
            SectionFlags::Align512Bytes => 0x00A00000,
            SectionFlags::Align1024Bytes => 0x00B00000,
            SectionFlags::Align2048Bytes => 0x00C00000,
            SectionFlags::Align4096Bytes => 0x00D00000,
            SectionFlags::Align8192Bytes => 0x00E00000,
            SectionFlags::NRelocOVFL => 0x01000000,
            SectionFlags::MemDiscardable => 0x02000000,
            SectionFlags::MemNotCached => 0x04000000,
            SectionFlags::MemNotPaged => 0x08000000,
            SectionFlags::MemShared => 0x10000000,
            SectionFlags::MemExecute => 0x20000000,
            SectionFlags::MemRead => 0x40000000,
            SectionFlags::MemWrite => 0x80000000,
        }
    }

    open spec fn declared() -> Seq<SectionFlags> {
        seq![
            SectionFlags::TypeNoPad,
            SectionFlags::ContainsCode,
            SectionFlags::ContainsInitializedData,
            SectionFlags::ContainsUnitializedData,
            SectionFlags::Info,
            SectionFlags::Remove,
            SectionFlags::COMDAT,
            SectionFlags::GPRelative,
            SectionFlags::Align1Byte,
            SectionFlags::Align2Bytes,
            SectionFlags::Align4Bytes,
            SectionFlags::Align8Bytes,
            SectionFlags::Align16Bytes,
            SectionFlags::Align32Bytes,
            SectionFlags::Align64Bytes,
            SectionFlags::Align128Bytes,
            SectionFlags::Align256Bytes,
            SectionFlags::Align512Bytes,
            SectionFlags::Align1024Bytes,
            SectionFlags::Align2048Bytes,
            SectionFlags::Align4096Bytes,
            SectionFlags::Align8192Bytes,
            SectionFlags::NRelocOVFL,
            SectionFlags::MemDiscardable,
            SectionFlags::MemNotCached,
            SectionFlags::MemNotPaged,
            SectionFlags::MemShared,
            SectionFlags::MemExecute,
            SectionFlags::MemRead,
            SectionFlags::MemWrite,
        ]
    }

    fn into_repr(self) -> (r: u32) {
        match self {
            SectionFlags::TypeNoPad => 0x00000008,
            SectionFlags::ContainsCode => 0x00000020,
            SectionFlags::ContainsInitializedData => 0x00000040,
            SectionFlags::ContainsUnitializedData => 0x00000080,
            SectionFlags::Info => 0x00000200,
            SectionFlags::Remove => 0x00000800,
            SectionFlags::COMDAT => 0x00001000,
            SectionFlags::GPRelative => 0x00008000,
            SectionFlags::Align1Byte => 0x00100000,
            SectionFlags::Align2Bytes => 0x00200000,
            SectionFlags::Align4Bytes => 0x00300000,
            SectionFlags::Align8Bytes => 0x00400000,
            SectionFlags::Align16Bytes => 0x00500000,
            SectionFlags::Align32Bytes => 0x00600000,
            SectionFlags::Align64Bytes => 0x00700000,
            SectionFlags::Align128Bytes => 0x00800000,
            SectionFlags::Align256Bytes => 0x00900000,
            SectionFlags::Align512Bytes => 0x00A00000,
            SectionFlags::Align1024Bytes => 0x00B00000,
            SectionFlags::Align2048Bytes => 0x00C00000,
            SectionFlags::Align4096Bytes => 0x00D00000,
            SectionFlags::Align8192Bytes => 0x00E00000,
            SectionFlags::NRelocOVFL => 0x01000000,
            SectionFlags::MemDiscardable => 0x02000000,
            SectionFlags::MemNotCached => 0x04000000,
            SectionFlags::MemNotPaged => 0x08000000,
            SectionFlags::MemShared => 0x10000000,
            SectionFlags::MemExecute => 0x20000000,
            SectionFlags::MemRead => 0x40000000,
            SectionFlags::MemWrite => 0x80000000,
        }
    }

    fn variants() -> (r: Vec<SectionFlags>) {
        let r = vec![
            SectionFlags::TypeNoPad,
            SectionFlags::ContainsCode,
            SectionFlags::ContainsInitializedData,
            SectionFlags::ContainsUnitializedData,
            SectionFlags::Info,
            SectionFlags::Remove,
            SectionFlags::COMDAT,
            SectionFlags::GPRelative,
            SectionFlags::Align1Byte,
            SectionFlags::Align2Bytes,
            SectionFlags::Align4Bytes,
            SectionFlags::Align8Bytes,
            SectionFlags::Align16Bytes,
            SectionFlags::Align32Bytes,
            SectionFlags::Align64Bytes,
            SectionFlags::Align128Bytes,
            SectionFlags::Align256Bytes,
            SectionFlags::Align512Bytes,
            SectionFlags::Align1024Bytes,
            SectionFlags::Align2048Bytes,
            SectionFlags::Align4096Bytes,
            SectionFlags::Align8192Bytes,
            SectionFlags::NRelocOVFL,
            SectionFlags::MemDiscardable,
            SectionFlags::MemNotCached,
            SectionFlags::MemNotPaged,
            SectionFlags::MemShared,
            SectionFlags::MemExecute,
            SectionFlags::MemRead,
            SectionFlags::MemWrite,
        ];
        assert(r@ =~= Self::declared());
        r
    }

    proof fn lemma_declared(k: SectionFlags) {
        let d = Self::declared();
        match k {
            SectionFlags::TypeNoPad => assert(d[0] == k),
            SectionFlags::ContainsCode => assert(d[1] == k),
            SectionFlags::ContainsInitializedData => assert(d[2] == k),
            SectionFlags::ContainsUnitializedData => assert(d[3] == k),
            SectionFlags::Info => assert(d[4] == k),
            SectionFlags::Remove => assert(d[5] == k),
            SectionFlags::COMDAT => assert(d[6] == k),
            SectionFlags::GPRelative => assert(d[7] == k),
            SectionFlags::Align1Byte => assert(d[8] == k),
            SectionFlags::Align2Bytes => assert(d[9] == k),
            SectionFlags::Align4Bytes => assert(d[10] == k),
            SectionFlags::Align8Bytes => assert(d[11] == k),
            SectionFlags::Align16Bytes => assert(d[12] == k),
            SectionFlags::Align32Bytes => assert(d[13] == k),
            SectionFlags::Align64Bytes => assert(d[14] == k),
            SectionFlags::Align128Bytes => assert(d[15] == k),
            SectionFlags::Align256Bytes => assert(d[16] == k),
            SectionFlags::Align512Bytes => assert(d[17] == k),
            SectionFlags::Align1024Bytes => assert(d[18] == k),
            SectionFlags::Align2048Bytes => assert(d[19] == k),
            SectionFlags::Align4096Bytes => assert(d[20] == k),
            SectionFlags::Align8192Bytes => assert(d[21] == k),
            SectionFlags::NRelocOVFL => assert(d[22] == k),
            SectionFlags::MemDiscardable => assert(d[23] == k),
            SectionFlags::MemNotCached => assert(d[24] == k),
            SectionFlags::MemNotPaged => assert(d[25] == k),
            SectionFlags::MemShared => assert(d[26] == k),
            SectionFlags::MemExecute => assert(d[27] == k),
            SectionFlags::MemRead => assert(d[28] == k),
            SectionFlags::MemWrite => assert(d[29] == k),
        }
    }

    proof fn lemma_declared_distinct() {
        let d = Self::declared();
        assert forall|i: int, j: int| 0 <= i < d.len() && 0 <= j < d.len() && i != j implies d[i] != d[j] by {
            assert(d[i].spec_into() != d[j].spec_into());
        }
    }
}

} // verus!
