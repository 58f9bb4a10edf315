use memprocfs::kinds::{
    VmmIntegrityLevelType, VmmLogLevel, VmmMapPfnType, VmmMapPfnTypeExtended, VmmMemoryModelType,
    VmmProcessMapHeapAllocType, VmmProcessMapHeapType, VmmProcessMapModuleType, VmmProcessMapVadExType, VmmSystemType,
};
use memprocfs::records::{VmmMapPoolEntry, VmmPluginInitializationInfo, VmmVfsEntry};

#[test]
fn codes_decode_to_kinds() {
    assert_eq!(VmmMemoryModelType::from(2), VmmMemoryModelType::X86PAE);
    assert_eq!(VmmMemoryModelType::from(9), VmmMemoryModelType::NA);
    assert_eq!(VmmSystemType::from(2), VmmSystemType::WindowsX64);
    assert_eq!(VmmSystemType::from(0), VmmSystemType::UnknownPhysical);
    assert_eq!(VmmIntegrityLevelType::from(7), VmmIntegrityLevelType::Protected);
    assert_eq!(VmmIntegrityLevelType::from(8), VmmIntegrityLevelType::Unknown);
    assert_eq!(VmmMapPfnType::from(0), VmmMapPfnType::Zero);
    assert_eq!(VmmMapPfnType::from(7), VmmMapPfnType::Transition);
    assert_eq!(VmmMapPfnTypeExtended::from(7), VmmMapPfnTypeExtended::File);
    assert_eq!(VmmMapPfnTypeExtended::from(0), VmmMapPfnTypeExtended::Unknown);
    assert_eq!(VmmProcessMapHeapType::from(2), VmmProcessMapHeapType::SegmentHeap);
    assert_eq!(VmmProcessMapHeapAllocType::from(8), VmmProcessMapHeapAllocType::SegNA);
    assert_eq!(VmmProcessMapHeapAllocType::from(9), VmmProcessMapHeapAllocType::NA);
    assert_eq!(VmmProcessMapModuleType::from(3), VmmProcessMapModuleType::Injected);
    assert_eq!(VmmProcessMapVadExType::from(6), VmmProcessMapVadExType::Pagefile);
}

#[test]
fn kind_names() {
    assert_eq!(VmmLogLevel::_3Info.to_string(), "Info(3)");
    assert_eq!(VmmLogLevel::_7None.code(), 7);
    assert_eq!(VmmMemoryModelType::X64.to_string(), "X64");
    assert_eq!(VmmSystemType::WindowsX86.to_string(), "WindowsX86");
    assert_eq!(VmmProcessMapHeapAllocType::NtLFH.to_string(), "NtLFH");
    assert_eq!(VmmProcessMapVadExType::DemandZero.to_string(), "DemandZero");
}

#[test]
fn pool_tag_text_and_identity() {
    let e = VmmMapPoolEntry { va: 0x1000, cb: 0x40, tag: 0x636f7250, is_alloc: true, tp_pool: 1, tp_subsegment: 0 };
    assert_eq!(e.tag_to_string(), "Proc");
    let f = VmmMapPoolEntry { va: 0x1000, cb: 0x80, tag: 0x656c6946, is_alloc: false, tp_pool: 2, tp_subsegment: 1 };
    assert_eq!(f.tag_to_string(), "File");
    let n = VmmMapPoolEntry { va: 0x3000, cb: 0x10, tag: 0x656e6f4e, is_alloc: true, tp_pool: 0, tp_subsegment: 0 };
    assert_eq!(n.tag_to_string(), "None");
    assert!(e == f);
    let g = VmmMapPoolEntry { va: 0x2000, ..f.clone() };
    assert!(e != g);
}

#[test]
fn vfs_entry_text() {
    let d = VmmVfsEntry { name: String::from("sys"), is_directory: true, size: 0 };
    assert_eq!(d.to_string(), "VmmVfsEntry:D:'sys'");
    let f = VmmVfsEntry { name: String::from("a.txt"), is_directory: false, size: 0x1f40 };
    assert_eq!(f.to_string(), "VmmVfsEntry:F:'a.txt':0x1f40");
}

#[test]
fn plugin_system_info_from_codes() {
    let i = VmmPluginInitializationInfo::from_native(2, 3, 10, 0, 19041);
    assert_eq!(i.tp_system, VmmSystemType::WindowsX64);
    assert_eq!(i.tp_memorymodel, VmmMemoryModelType::X64);
    assert_eq!((i.version_major, i.version_minor, i.version_build), (10, 0, 19041));
}
