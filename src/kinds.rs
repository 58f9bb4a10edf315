//! Enumerations that classify engine records, with their decoding from the
//! engine's numeric codes and their display names.
use vstd::prelude::*;

verus! {

/// Severity of a log message handed to the engine.
#[derive(Debug, Clone, Copy, PartialEq, Eq, Structural)]
pub enum VmmLogLevel {
    _1Critical,
    _2Warning,
    _3Info,
    _4Verbose,
    _5Debug,
    _6Trace,
    _7None,
}

impl VmmLogLevel {
    /// The numeric level the engine expects for this severity.
    pub open spec fn spec_code(self) -> u32 {
        match self {
            VmmLogLevel::_1Critical => 1,
            VmmLogLevel::_2Warning => 2,
            VmmLogLevel::_3Info => 3,
            VmmLogLevel::_4Verbose => 4,
            VmmLogLevel::_5Debug => 5,
            VmmLogLevel::_6Trace => 6,
            VmmLogLevel::_7None => 7,
        }
    }

    pub open spec fn spec_name(self) -> Seq<char> {
        match self {
            VmmLogLevel::_1Critical => "Critical(1)"@,
            VmmLogLevel::_2Warning => "Warning(2)"@,
            VmmLogLevel::_3Info => "Info(3)"@,
            VmmLogLevel::_4Verbose => "Verbose(4)"@,
            VmmLogLevel::_5Debug => "Debug(5)"@,
            VmmLogLevel::_6Trace => "Trace(6)"@,
            VmmLogLevel::_7None => "None(7)"@,
        }
    }

    /// The numeric level the engine expects for this severity.
    pub fn code(&self) -> (r: u32)
        ensures
            r == self.spec_code(),
    {
        match self {
            VmmLogLevel::_1Critical => 1,
            VmmLogLevel::_2Warning => 2,
            VmmLogLevel::_3Info => 3,
            VmmLogLevel::_4Verbose => 4,
            VmmLogLevel::_5Debug => 5,
            VmmLogLevel::_6Trace => 6,
            VmmLogLevel::_7None => 7,
        }
    }

    /// Human-readable name of the severity, with its level in parentheses.
    pub fn to_string(&self) -> (r: String)
        ensures
            r@ == self.spec_name(),
    {
        let s = match self {
            VmmLogLevel::_1Critical => "Critical(1)",
            VmmLogLevel::_2Warning => "Warning(2)",
            VmmLogLevel::_3Info => "Info(3)",
            VmmLogLevel::_4Verbose => "Verbose(4)",
            VmmLogLevel::_5Debug => "Debug(5)",
            VmmLogLevel::_6Trace => "Trace(6)",
            VmmLogLevel::_7None => "None(7)",
        };
        String::from_str(s)
    }
}

/// Memory model of the analysed system.
#[derive(Debug, Clone, Copy, PartialEq, Eq, Structural)]
pub enum VmmMemoryModelType {
    NA,
    X86,
    X86PAE,
    X64,
}

impl From<u32> for VmmMemoryModelType {
    fn from(v: u32) -> Self {
        match v {
            1 => VmmMemoryModelType::X86,
            2 => VmmMemoryModelType::X86PAE,
            3 => VmmMemoryModelType::X64,
            _ => VmmMemoryModelType::NA,
        }
    }
}

impl vstd::std_specs::convert::FromSpecImpl<u32> for VmmMemoryModelType {
    open spec fn obeys_from_spec() -> bool {
        true
    }

    open spec fn from_spec(v: u32) -> VmmMemoryModelType {
        if v == 1 {
            VmmMemoryModelType::X86
        } else if v == 2 {
            VmmMemoryModelType::X86PAE
        } else if v == 3 {
            VmmMemoryModelType::X64
        } else {
            VmmMemoryModelType::NA
        }
    }
}

impl VmmMemoryModelType {
    pub open spec fn spec_name(self) -> Seq<char> {
        match self {
            VmmMemoryModelType::NA => "NA"@,
            VmmMemoryModelType::X86 => "X86"@,
            VmmMemoryModelType::X86PAE => "X86PAE"@,
            VmmMemoryModelType::X64 => "X64"@,
        }
    }

    /// Name of the memory model.
    pub fn to_string(&self) -> (r: String)
        ensures
            r@ == self.spec_name(),
    {
        let s = match self {
            VmmMemoryModelType::NA => "NA",
            VmmMemoryModelType::X86 => "X86",
            VmmMemoryModelType::X86PAE => "X86PAE",
            VmmMemoryModelType::X64 => "X64",
        };
        String::from_str(s)
    }
}

/// Kind of the analysed system.
#[derive(Debug, Clone, Copy, PartialEq, Eq, Structural)]
pub enum VmmSystemType {
    UnknownPhysical,
    UnknownX64,
    WindowsX64,
    UnknownX86,
    WindowsX86,
}

impl From<u32> for VmmSystemType {
    fn from(v: u32) -> Self {
        match v {
            1 => VmmSystemType::UnknownX64,
            2 => VmmSystemType::WindowsX64,
            3 => VmmSystemType::UnknownX86,
            4 => VmmSystemType::WindowsX86,
            _ => VmmSystemType::UnknownPhysical,
        }
    }
}

impl vstd::std_specs::convert::FromSpecImpl<u32> for VmmSystemType {
    open spec fn obeys_from_spec() -> bool {
        true
    }

    open spec fn from_spec(v: u32) -> VmmSystemType {
        if v == 1 {
            VmmSystemType::UnknownX64
        } else if v == 2 {
            VmmSystemType::WindowsX64
        } else if v == 3 {
            VmmSystemType::UnknownX86
        } else if v == 4 {
            VmmSystemType::WindowsX86
        } else {
            VmmSystemType::UnknownPhysical
        }
    }
}

impl VmmSystemType {
    pub open spec fn spec_name(self) -> Seq<char> {
        match self {
            VmmSystemType::UnknownPhysical => "UnknownPhysical"@,
            VmmSystemType::UnknownX64 => "UnknownX64"@,
            VmmSystemType::WindowsX64 => "WindowsX64"@,
            VmmSystemType::UnknownX86 => "UnknownX86"@,
            VmmSystemType::WindowsX86 => "WindowsX86"@,
        }
    }

    /// Name of the variant.
    pub fn to_string(&self) -> (r: String)
        ensures
            r@ == self.spec_name(),
    {
        let s = match self {
            VmmSystemType::UnknownPhysical => "UnknownPhysical",
            VmmSystemType::UnknownX64 => "UnknownX64",
            VmmSystemType::WindowsX64 => "WindowsX64",
            VmmSystemType::UnknownX86 => "UnknownX86",
            VmmSystemType::WindowsX86 => "WindowsX86",
        };
        String::from_str(s)
    }
}

/// Integrity level of a process token.
#[derive(Debug, Clone, Copy, PartialEq, Eq, Structural)]
pub enum VmmIntegrityLevelType {
    Unknown,
    Untrusted,
    Low,
    Medium,
    MediumPlus,
    High,
    System,
    Protected,
}

impl From<u32> for VmmIntegrityLevelType {
    fn from(v: u32) -> Self {
        match v {
            1 => VmmIntegrityLevelType::Untrusted,
            2 => VmmIntegrityLevelType::Low,
            3 => VmmIntegrityLevelType::Medium,
            4 => VmmIntegrityLevelType::MediumPlus,
            5 => VmmIntegrityLevelType::High,
            6 => VmmIntegrityLevelType::System,
            7 => VmmIntegrityLevelType::Protected,
            _ => VmmIntegrityLevelType::Unknown,
        }
    }
}

impl vstd::std_specs::convert::FromSpecImpl<u32> for VmmIntegrityLevelType {
    open spec fn obeys_from_spec() -> bool {
        true
    }

    open spec fn from_spec(v: u32) -> VmmIntegrityLevelType {
        if v == 1 {
            VmmIntegrityLevelType::Untrusted
        } else if v == 2 {
            VmmIntegrityLevelType::Low
        } else if v == 3 {
            VmmIntegrityLevelType::Medium
        } else if v == 4 {
            VmmIntegrityLevelType::MediumPlus
        } else if v == 5 {
            VmmIntegrityLevelType::High
        } else if v == 6 {
            VmmIntegrityLevelType::System
        } else if v == 7 {
            VmmIntegrityLevelType::Protected
        } else {
            VmmIntegrityLevelType::Unknown
        }
    }
}

impl VmmIntegrityLevelType {
    pub open spec fn spec_name(self) -> Seq<char> {
        match self {
            VmmIntegrityLevelType::Unknown => "Unknown"@,
            VmmIntegrityLevelType::Untrusted => "Untrusted"@,
            VmmIntegrityLevelType::Low => "Low"@,
            VmmIntegrityLevelType::Medium => "Medium"@,
            VmmIntegrityLevelType::MediumPlus => "MediumPlus"@,
            VmmIntegrityLevelType::High => "High"@,
            VmmIntegrityLevelType::System => "System"@,
            VmmIntegrityLevelType::Protected => "Protected"@,
        }
    }

    /// Name of the variant.
    pub fn to_string(&self) -> (r: String)
        ensures
            r@ == self.spec_name(),
    {
        let s = match self {
            VmmIntegrityLevelType::Unknown => "Unknown",
            VmmIntegrityLevelType::Untrusted => "Untrusted",
            VmmIntegrityLevelType::Low => "Low",
            VmmIntegrityLevelType::Medium => "Medium",
            VmmIntegrityLevelType::MediumPlus => "MediumPlus",
            VmmIntegrityLevelType::High => "High",
            VmmIntegrityLevelType::System => "System",
            VmmIntegrityLevelType::Protected => "Protected",
        };
        String::from_str(s)
    }
}

/// List a physical page frame is on.
#[derive(Debug, Clone, Copy, PartialEq, Eq, Structural)]
pub enum VmmMapPfnType {
    Zero,
    Free,
    Standby,
    Modified,
    ModifiedNoWrite,
    Bad,
    Active,
    Transition,
}

impl From<u32> for VmmMapPfnType {
    fn from(v: u32) -> Self {
        match v {
            0 => VmmMapPfnType::Zero,
            1 => VmmMapPfnType::Free,
            2 => VmmMapPfnType::Standby,
            3 => VmmMapPfnType::Modified,
            4 => VmmMapPfnType::ModifiedNoWrite,
            5 => VmmMapPfnType::Bad,
            6 => VmmMapPfnType::Active,
            _ => VmmMapPfnType::Transition,
        }
    }
}

impl vstd::std_specs::convert::FromSpecImpl<u32> for VmmMapPfnType {
    open spec fn obeys_from_spec() -> bool {
        true
    }

    open spec fn from_spec(v: u32) -> VmmMapPfnType {
        if v == 0 {
            VmmMapPfnType::Zero
        } else if v == 1 {
            VmmMapPfnType::Free
        } else if v == 2 {
            VmmMapPfnType::Standby
        } else if v == 3 {
            VmmMapPfnType::Modified
        } else if v == 4 {
            VmmMapPfnType::ModifiedNoWrite
        } else if v == 5 {
            VmmMapPfnType::Bad
        } else if v == 6 {
            VmmMapPfnType::Active
        } else {
            VmmMapPfnType::Transition
        }
    }
}

impl VmmMapPfnType {
    pub open spec fn spec_name(self) -> Seq<char> {
        match self {
            VmmMapPfnType::Zero => "Zero"@,
            VmmMapPfnType::Free => "Free"@,
            VmmMapPfnType::Standby => "Standby"@,
            VmmMapPfnType::Modified => "Modified"@,
            VmmMapPfnType::ModifiedNoWrite => "ModifiedNoWrite"@,
            VmmMapPfnType::Bad => "Bad"@,
            VmmMapPfnType::Active => "Active"@,
            VmmMapPfnType::Transition => "Transition"@,
        }
    }

    /// Name of the variant.
    pub fn to_string(&self) -> (r: String)
        ensures
            r@ == self.spec_name(),
    {
        let s = match self {
            VmmMapPfnType::Zero => "Zero",
            VmmMapPfnType::Free => "Free",
            VmmMapPfnType::Standby => "Standby",
            VmmMapPfnType::Modified => "Modified",
            VmmMapPfnType::ModifiedNoWrite => "ModifiedNoWrite",
            VmmMapPfnType::Bad => "Bad",
            VmmMapPfnType::Active => "Active",
            VmmMapPfnType::Transition => "Transition",
        };
        String::from_str(s)
    }
}

/// Extended use of a physical page frame.
#[derive(Debug, Clone, Copy, PartialEq, Eq, Structural)]
pub enum VmmMapPfnTypeExtended {
    Unknown,
    Unused,
    ProcessPrivate,
    PageTable,
    LargePage,
    DriverLocked,
    Shareable,
    File,
}

impl From<u32> for VmmMapPfnTypeExtended {
    fn from(v: u32) -> Self {
        match v {
            1 => VmmMapPfnTypeExtended::Unused,
            2 => VmmMapPfnTypeExtended::ProcessPrivate,
            3 => VmmMapPfnTypeExtended::PageTable,
            4 => VmmMapPfnTypeExtended::LargePage,
            5 => VmmMapPfnTypeExtended::DriverLocked,
            6 => VmmMapPfnTypeExtended::Shareable,
            7 => VmmMapPfnTypeExtended::File,
            _ => VmmMapPfnTypeExtended::Unknown,
        }
    }
}

impl vstd::std_specs::convert::FromSpecImpl<u32> for VmmMapPfnTypeExtended {
    open spec fn obeys_from_spec() -> bool {
        true
    }

    open spec fn from_spec(v: u32) -> VmmMapPfnTypeExtended {
        if v == 1 {
            VmmMapPfnTypeExtended::Unused
        } else if v == 2 {
            VmmMapPfnTypeExtended::ProcessPrivate
        } else if v == 3 {
            VmmMapPfnTypeExtended::PageTable
        } else if v == 4 {
            VmmMapPfnTypeExtended::LargePage
        } else if v == 5 {
            VmmMapPfnTypeExtended::DriverLocked
        } else if v == 6 {
            VmmMapPfnTypeExtended::Shareable
        } else if v == 7 {
            VmmMapPfnTypeExtended::File
        } else {
            VmmMapPfnTypeExtended::Unknown
        }
    }
}

impl VmmMapPfnTypeExtended {
    pub open spec fn spec_name(self) -> Seq<char> {
        match self {
            VmmMapPfnTypeExtended::Unknown => "Unknown"@,
            VmmMapPfnTypeExtended::Unused => "Unused"@,
            VmmMapPfnTypeExtended::ProcessPrivate => "ProcessPrivate"@,
            VmmMapPfnTypeExtended::PageTable => "PageTable"@,
            VmmMapPfnTypeExtended::LargePage => "LargePage"@,
            VmmMapPfnTypeExtended::DriverLocked => "DriverLocked"@,
            VmmMapPfnTypeExtended::Shareable => "Shareable"@,
            VmmMapPfnTypeExtended::File => "File"@,
        }
    }

    /// Name of the variant.
    pub fn to_string(&self) -> (r: String)
        ensures
            r@ == self.spec_name(),
    {
        let s = match self {
            VmmMapPfnTypeExtended::Unknown => "Unknown",
            VmmMapPfnTypeExtended::Unused => "Unused",
            VmmMapPfnTypeExtended::ProcessPrivate => "ProcessPrivate",
            VmmMapPfnTypeExtended::PageTable => "PageTable",
            VmmMapPfnTypeExtended::LargePage => "LargePage",
            VmmMapPfnTypeExtended::DriverLocked => "DriverLocked",
            VmmMapPfnTypeExtended::Shareable => "Shareable",
            VmmMapPfnTypeExtended::File => "File",
        };
        String::from_str(s)
    }
}

/// Kind of a process heap.
#[derive(Debug, Clone, Copy, PartialEq, Eq, Structural)]
pub enum VmmProcessMapHeapType {
    NA,
    NtHeap,
    SegmentHeap,
}

impl From<u32> for VmmProcessMapHeapType {
    fn from(v: u32) -> Self {
        match v {
            1 => VmmProcessMapHeapType::NtHeap,
            2 => VmmProcessMapHeapType::SegmentHeap,
            _ => VmmProcessMapHeapType::NA,
        }
    }
}

impl vstd::std_specs::convert::FromSpecImpl<u32> for VmmProcessMapHeapType {
    open spec fn obeys_from_spec() -> bool {
        true
    }

    open spec fn from_spec(v: u32) -> VmmProcessMapHeapType {
        if v == 1 {
            VmmProcessMapHeapType::NtHeap
        } else if v == 2 {
            VmmProcessMapHeapType::SegmentHeap
        } else {
            VmmProcessMapHeapType::NA
        }
    }
}

impl VmmProcessMapHeapType {
    pub open spec fn spec_name(self) -> Seq<char> {
        match self {
            VmmProcessMapHeapType::NA => "NA"@,
            VmmProcessMapHeapType::NtHeap => "NtHeap"@,
            VmmProcessMapHeapType::SegmentHeap => "SegmentHeap"@,
        }
    }

    /// Name of the variant.
    pub fn to_string(&self) -> (r: String)
        ensures
            r@ == self.spec_name(),
    {
        let s = match self {
            VmmProcessMapHeapType::NA => "NA",
            VmmProcessMapHeapType::NtHeap => "NtHeap",
            VmmProcessMapHeapType::SegmentHeap => "SegmentHeap",
        };
        String::from_str(s)
    }
}

/// Kind of a heap allocation.
#[derive(Debug, Clone, Copy, PartialEq, Eq, Structural)]
pub enum VmmProcessMapHeapAllocType {
    NA,
    NtHeap,
    NtLFH,
    NtLarge,
    NtNA,
    SegVS,
    SegLFH,
    SegLarge,
    SegNA,
}

impl From<u32> for VmmProcessMapHeapAllocType {
    fn from(v: u32) -> Self {
        match v {
            1 => VmmProcessMapHeapAllocType::NtHeap,
            2 => VmmProcessMapHeapAllocType::NtLFH,
            3 => VmmProcessMapHeapAllocType::NtLarge,
            4 => VmmProcessMapHeapAllocType::NtNA,
            5 => VmmProcessMapHeapAllocType::SegVS,
            6 => VmmProcessMapHeapAllocType::SegLFH,
            7 => VmmProcessMapHeapAllocType::SegLarge,
            8 => VmmProcessMapHeapAllocType::SegNA,
            _ => VmmProcessMapHeapAllocType::NA,
        }
    }
}

impl vstd::std_specs::convert::FromSpecImpl<u32> for VmmProcessMapHeapAllocType {
    open spec fn obeys_from_spec() -> bool {
        true
    }

    open spec fn from_spec(v: u32) -> VmmProcessMapHeapAllocType {
        if v == 1 {
            VmmProcessMapHeapAllocType::NtHeap
        } else if v == 2 {
            VmmProcessMapHeapAllocType::NtLFH
        } else if v == 3 {
            VmmProcessMapHeapAllocType::NtLarge
        } else if v == 4 {
            VmmProcessMapHeapAllocType::NtNA
        } else if v == 5 {
            VmmProcessMapHeapAllocType::SegVS
        } else if v == 6 {
            VmmProcessMapHeapAllocType::SegLFH
        } else if v == 7 {
            VmmProcessMapHeapAllocType::SegLarge
        } else if v == 8 {
            VmmProcessMapHeapAllocType::SegNA
        } else {
            VmmProcessMapHeapAllocType::NA
        }
    }
}

impl VmmProcessMapHeapAllocType {
    pub open spec fn spec_name(self) -> Seq<char> {
        match self {
            VmmProcessMapHeapAllocType::NA => "NA"@,
            VmmProcessMapHeapAllocType::NtHeap => "NtHeap"@,
            VmmProcessMapHeapAllocType::NtLFH => "NtLFH"@,
            VmmProcessMapHeapAllocType::NtLarge => "NtLarge"@,
            VmmProcessMapHeapAllocType::NtNA => "NtNA"@,
            VmmProcessMapHeapAllocType::SegVS => "SegVS"@,
            VmmProcessMapHeapAllocType::SegLFH => "SegLFH"@,
            VmmProcessMapHeapAllocType::SegLarge => "SegLarge"@,
            VmmProcessMapHeapAllocType::SegNA => "SegNA"@,
        }
    }

    /// Name of the variant.
    pub fn to_string(&self) -> (r: String)
        ensures
            r@ == self.spec_name(),
    {
        let s = match self {
            VmmProcessMapHeapAllocType::NA => "NA",
            VmmProcessMapHeapAllocType::NtHeap => "NtHeap",
            VmmProcessMapHeapAllocType::NtLFH => "NtLFH",
            VmmProcessMapHeapAllocType::NtLarge => "NtLarge",
            VmmProcessMapHeapAllocType::NtNA => "NtNA",
            VmmProcessMapHeapAllocType::SegVS => "SegVS",
            VmmProcessMapHeapAllocType::SegLFH => "SegLFH",
            VmmProcessMapHeapAllocType::SegLarge => "SegLarge",
            VmmProcessMapHeapAllocType::SegNA => "SegNA",
        };
        String::from_str(s)
    }
}

/// How a module is present in a process.
#[derive(Debug, Clone, Copy, PartialEq, Eq, Structural)]
pub enum VmmProcessMapModuleType {
    Normal,
    Data,
    NotLinked,
    Injected,
}

impl From<u32> for VmmProcessMapModuleType {
    fn from(v: u32) -> Self {
        match v {
            1 => VmmProcessMapModuleType::Data,
            2 => VmmProcessMapModuleType::NotLinked,
            3 => VmmProcessMapModuleType::Injected,
            _ => VmmProcessMapModuleType::Normal,
        }
    }
}

impl vstd::std_specs::convert::FromSpecImpl<u32> for VmmProcessMapModuleType {
    open spec fn obeys_from_spec() -> bool {
        true
    }

    open spec fn from_spec(v: u32) -> VmmProcessMapModuleType {
        if v == 1 {
            VmmProcessMapModuleType::Data
        } else if v == 2 {
            VmmProcessMapModuleType::NotLinked
        } else if v == 3 {
            VmmProcessMapModuleType::Injected
        } else {
            VmmProcessMapModuleType::Normal
        }
    }
}

impl VmmProcessMapModuleType {
    pub open spec fn spec_name(self) -> Seq<char> {
        match self {
            VmmProcessMapModuleType::Normal => "Normal"@,
            VmmProcessMapModuleType::Data => "Data"@,
            VmmProcessMapModuleType::NotLinked => "NotLinked"@,
            VmmProcessMapModuleType::Injected => "Injected"@,
        }
    }

    /// Name of the variant.
    pub fn to_string(&self) -> (r: String)
        ensures
            r@ == self.spec_name(),
    {
        let s = match self {
            VmmProcessMapModuleType::Normal => "Normal",
            VmmProcessMapModuleType::Data => "Data",
            VmmProcessMapModuleType::NotLinked => "NotLinked",
            VmmProcessMapModuleType::Injected => "Injected",
        };
        String::from_str(s)
    }
}

/// Backing of a page inside a virtual address descriptor.
#[derive(Debug, Clone, Copy, PartialEq, Eq, Structural)]
pub enum VmmProcessMapVadExType {
    NA,
    Hardware,
    Transition,
    Prototype,
    DemandZero,
    Compressed,
    Pagefile,
    File,
}

impl From<u32> for VmmProcessMapVadExType {
    fn from(v: u32) -> Self {
        match v {
            1 => VmmProcessMapVadExType::Hardware,
            2 => VmmProcessMapVadExType::Transition,
            3 => VmmProcessMapVadExType::Prototype,
            4 => VmmProcessMapVadExType::DemandZero,
            5 => VmmProcessMapVadExType::Compressed,
            6 => VmmProcessMapVadExType::Pagefile,
            7 => VmmProcessMapVadExType::File,
            _ => VmmProcessMapVadExType::NA,
        }
    }
}

impl vstd::std_specs::convert::FromSpecImpl<u32> for VmmProcessMapVadExType {
    open spec fn obeys_from_spec() -> bool {
        true
    }

    open spec fn from_spec(v: u32) -> VmmProcessMapVadExType {
        if v == 1 {
            VmmProcessMapVadExType::Hardware
        } else if v == 2 {
            VmmProcessMapVadExType::Transition
        } else if v == 3 {
            VmmProcessMapVadExType::Prototype
        } else if v == 4 {
            VmmProcessMapVadExType::DemandZero
        } else if v == 5 {
            VmmProcessMapVadExType::Compressed
        } else if v == 6 {
            VmmProcessMapVadExType::Pagefile
        } else if v == 7 {
            VmmProcessMapVadExType::File
        } else {
            VmmProcessMapVadExType::NA
        }
    }
}

impl VmmProcessMapVadExType {
    pub open spec fn spec_name(self) -> Seq<char> {
        match self {
            VmmProcessMapVadExType::NA => "NA"@,
            VmmProcessMapVadExType::Hardware => "Hardware"@,
            VmmProcessMapVadExType::Transition => "Transition"@,
            VmmProcessMapVadExType::Prototype => "Prototype"@,
            VmmProcessMapVadExType::DemandZero => "DemandZero"@,
            VmmProcessMapVadExType::Compressed => "Compressed"@,
            VmmProcessMapVadExType::Pagefile => "Pagefile"@,
            VmmProcessMapVadExType::File => "File"@,
        }
    }

    /// Name of the variant.
    pub fn to_string(&self) -> (r: String)
        ensures
            r@ == self.spec_name(),
    {
        let s = match self {
            VmmProcessMapVadExType::NA => "NA",
            VmmProcessMapVadExType::Hardware => "Hardware",
            VmmProcessMapVadExType::Transition => "Transition",
            VmmProcessMapVadExType::Prototype => "Prototype",
            VmmProcessMapVadExType::DemandZero => "DemandZero",
            VmmProcessMapVadExType::Compressed => "Compressed",
            VmmProcessMapVadExType::Pagefile => "Pagefile",
            VmmProcessMapVadExType::File => "File",
        };
        String::from_str(s)
    }
}

} // verus!
