use pe_parser::collections::{EnumSet, SuitableEnum};
use pe_parser::specification::Characteristics as S;
use pe_parser::specification::{Characteristics, DllCharacteristics, SectionFlags};

type Flags = EnumSet<Characteristics, u16>;

fn construct() -> Flags {
    let test_val = Characteristics::ExecutableImage.into_repr() | Characteristics::LineNumsStripped.into_repr();
    Flags::from_raw(test_val)
}

#[test]
pub fn test_new() {
    let _ = construct();
}

#[test]
pub fn test_insert() {
    let mut set = construct();
    set.insert(Characteristics::LargeAddressAware);
    assert_eq!(
        set.repr(),
        S::ExecutableImage.into_repr() | S::LineNumsStripped.into_repr() | S::LargeAddressAware.into_repr()
    );
    assert_eq!(set.repr(), 0x0026);
}

#[test]
pub fn test_remove() {
    let mut set = construct();
    set.remove(Characteristics::ExecutableImage);

    assert_eq!(set.repr(), Characteristics::LineNumsStripped.into_repr());
    let as_vec = set.iter();
    assert_eq!(as_vec, vec![Characteristics::LineNumsStripped]);
}

#[test]
fn new_set_is_empty() {
    let set: Flags = EnumSet::new();
    assert_eq!(set.repr(), 0);
    assert!(set.iter().is_empty());
    assert!(!set.contains(Characteristics::DLL));
}

#[test]
fn insert_then_contains_and_remove_then_not() {
    let mut set: EnumSet<DllCharacteristics, u16> = EnumSet::new();
    set.insert(DllCharacteristics::NXCompatible);
    assert!(set.contains(DllCharacteristics::NXCompatible));
    assert!(!set.contains(DllCharacteristics::NoSEH));
    set.remove(DllCharacteristics::NXCompatible);
    assert!(!set.contains(DllCharacteristics::NXCompatible));
    assert_eq!(set.repr(), 0);
}

#[test]
fn iter_lists_declared_flags_in_order_and_skips_unknown_bits() {
    // 0x0040 is not a declared characteristic; it stays in the raw value.
    let set = Flags::from_raw(0x8000 | 0x2000 | 0x0040 | 0x0001);
    assert_eq!(set.repr(), 0xA041);
    assert_eq!(
        set.iter(),
        vec![Characteristics::RelocsStripped, Characteristics::DLL, Characteristics::BigEndian]
    );
    // Restartable: a second walk gives the same list.
    assert_eq!(set.iter(), set.iter());
}

#[test]
fn union_holds_members_of_both() {
    let a = Flags::from_raw(0x0001);
    let b = Flags::from_raw(0x2000 | 0x0040);
    let u = a.union(&b);
    assert_eq!(u.repr(), 0x2041);
    assert_eq!(u.iter(), vec![Characteristics::RelocsStripped, Characteristics::DLL]);
    assert_eq!(a.repr(), 0x0001);
    assert_eq!(b.repr(), 0x2040);
}

#[test]
fn section_alignment_flags_test_by_overlap() {
    let set: EnumSet<SectionFlags, u32> = EnumSet::from_raw(0x0030_0000 | 0x4000_0000);
    assert!(set.contains(SectionFlags::Align4Bytes));
    assert!(set.contains(SectionFlags::MemRead));
    assert!(!set.contains(SectionFlags::MemWrite));
}
