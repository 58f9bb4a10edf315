//! Records the engine describes: processes, modules, memory maps, network
//! connections and the like, copied out of the engine's native arrays.
use vstd::prelude::*;
use crate::kinds::{
    VmmIntegrityLevelType, VmmMapPfnType, VmmMapPfnTypeExtended, VmmMemoryModelType,
    VmmProcessMapHeapAllocType, VmmProcessMapHeapType, VmmProcessMapModuleType,
    VmmProcessMapVadExType, VmmSystemType,
};

verus! {

/// A network connection.
#[derive(Debug, Clone)]
pub struct VmmMapNetEntry {
    pub pid: u32,
    pub state: u32,
    pub address_family: u16,
    pub src_is_valid: bool,
    pub src_port: u16,
    pub src_addr_raw: [u8; 16],
    pub src_str: String,
    pub dst_is_valid: bool,
    pub dst_port: u16,
    pub dst_addr_raw: [u8; 16],
    pub dst_str: String,
    pub va_object: u64,
    pub filetime: u64,
    pub pool_tag: u32,
    pub desc: String,
}

/// A physical page frame.
#[derive(Debug, Clone)]
pub struct VmmMapPfnEntry {
    pub pfn: u32,
    pub location: VmmMapPfnType,
    pub is_prototype: bool,
    pub color: u32,
    pub is_extended: bool,
    pub tp_ex: VmmMapPfnTypeExtended,
    pub pid: u32,
    pub ptes: [u32; 5],
    pub va: u64,
    pub va_pte: u64,
    pub pte_original: u64,
}

/// A kernel pool allocation.
#[derive(Debug, Clone)]
pub struct VmmMapPoolEntry {
    pub va: u64,
    pub cb: u32,
    pub tag: u32,
    pub is_alloc: bool,
    pub tp_pool: u8,
    pub tp_subsegment: u8,
}

/// A range of physical memory.
#[derive(Debug, Clone)]
pub struct VmmMapMemoryEntry {
    pub pa: u64,
    pub cb: u64,
}

/// A service.
#[derive(Debug, Clone)]
pub struct VmmMapServiceEntry {
    pub ordinal: u32,
    pub va_object: u64,
    pub pid: u32,
    pub start_type: u32,
    pub service_type: u32,
    pub current_state: u32,
    pub controls_accepted: u32,
    pub win32_exit_code: u32,
    pub service_specific_exit_code: u32,
    pub check_point: u32,
    pub wait_hint: u32,
    pub name: String,
    pub name_display: String,
    pub path: String,
    pub user_type: String,
    pub user_account: String,
    pub image_path: String,
}

/// A user.
#[derive(Debug, Clone)]
pub struct VmmMapUserEntry {
    pub user: String,
    pub sid: String,
    pub va_reg_hive: u64,
}

/// A virtual machine found in the analysed system.
///
/// `h_vmm` is the handle of the session that listed it and `h_vm` the
/// token from which the engine resolves the machine's own handle.
#[derive(Debug, Clone)]
pub struct VmmMapVirtualMachineEntry {
    pub h_vmm: usize,
    pub h_vm: usize,
    pub name: String,
    pub gpa_max: u64,
    pub tp_vm: u32,
    pub is_active: bool,
    pub is_readonly: bool,
    pub is_physicalonly: bool,
    pub partition_id: u32,
    pub guest_os_version_build: u32,
    pub guest_tp_system: u32,
    pub parent_mount_id: u32,
    pub vmmem_pid: u32,
}

/// A file or directory of the engine's virtual file system.
#[derive(Debug, Clone)]
pub struct VmmVfsEntry {
    pub name: String,
    pub is_directory: bool,
    pub size: u64,
}

/// Information on a process.
#[derive(Debug, Clone)]
pub struct VmmProcessInfo {
    pub pid: u32,
    pub ppid: u32,
    pub name: String,
    pub name_long: String,
    pub tp_system: VmmSystemType,
    pub tp_memorymodel: VmmMemoryModelType,
    pub is_user_mode: bool,
    pub state: u32,
    pub pa_dtb: u64,
    pub pa_dtb_user: u64,
    pub va_eprocess: u64,
    pub va_peb: u64,
    pub is_wow64: bool,
    pub va_peb32: u32,
    pub session_id: u32,
    pub luid: u64,
    pub sid: String,
    pub integrity_level: VmmIntegrityLevelType,
}

/// A data directory of a module.
#[derive(Debug, Clone)]
pub struct VmmProcessMapDirectoryEntry {
    pub pid: u32,
    pub name: &'static str,
    pub virtual_address: u32,
    pub size: u32,
}

/// An exported function of a module.
#[derive(Debug, Clone)]
pub struct VmmProcessMapEatEntry {
    pub pid: u32,
    pub va_function: u64,
    pub ordinal: u32,
    pub function: String,
    pub forwarded_function: String,
}

/// A handle of a process.
#[derive(Debug, Clone)]
pub struct VmmProcessMapHandleEntry {
    pub pid: u32,
    pub va_object: u64,
    pub handle_id: u32,
    pub granted_access: u32,
    pub type_index: u32,
    pub handle_count: u64,
    pub pointer_count: u64,
    pub va_object_create_info: u64,
    pub va_security_descriptor: u64,
    pub handle_pid: u32,
    pub pool_tag: u32,
    pub info: String,
    pub tp: String,
}

/// A heap of a process.
#[derive(Debug, Clone)]
pub struct VmmProcessMapHeapEntry {
    pub pid: u32,
    pub tp: VmmProcessMapHeapType,
    pub is_32: bool,
    pub index: u32,
    pub number: u32,
}

/// An allocation in a heap.
#[derive(Debug, Clone)]
pub struct VmmProcessMapHeapAllocEntry {
    pub pid: u32,
    pub va: u64,
    pub size: u32,
    pub tp: VmmProcessMapHeapAllocType,
}

/// An imported function of a module.
#[derive(Debug, Clone)]
pub struct VmmProcessMapIatEntry {
    pub pid: u32,
    pub va_function: u64,
    pub function: String,
    pub module: String,
}

/// Debug information of a module.
#[derive(Debug, Clone)]
pub struct VmmProcessMapModuleDebugEntry {
    pub pid: u32,
    pub age: u32,
    pub raw_guid: [u8; 16],
    pub guid: String,
    pub pdb_filename: String,
}

/// Version information of a module.
#[derive(Debug, Clone)]
pub struct VmmProcessMapModuleVersionEntry {
    pub pid: u32,
    pub company_name: String,
    pub file_description: String,
    pub file_version: String,
    pub internal_name: String,
    pub legal_copyright: String,
    pub original_file_name: String,
    pub product_name: String,
    pub product_version: String,
}

/// A module loaded in a process.
#[derive(Debug, Clone)]
pub struct VmmProcessMapModuleEntry {
    pub pid: u32,
    pub va_base: u64,
    pub va_entry: u64,
    pub image_size: u32,
    pub is_wow64: bool,
    pub tp: VmmProcessMapModuleType,
    pub name: String,
    pub full_name: String,
    pub file_size_raw: u32,
    pub section_count: u32,
    pub eat_count: u32,
    pub iat_count: u32,
    pub debug_info: Option<VmmProcessMapModuleDebugEntry>,
    pub version_info: Option<VmmProcessMapModuleVersionEntry>,
}

/// A range of pages mapped by page tables.
#[derive(Debug, Clone)]
pub struct VmmProcessMapPteEntry {
    pub pid: u32,
    pub va_base: u64,
    pub page_count: u64,
    pub page_software_count: u32,
    pub is_wow64: bool,
    pub info: String,
    pub is_r: bool,
    pub is_w: bool,
    pub is_x: bool,
    pub is_s: bool,
}

/// A section of a module.
#[derive(Debug, Clone)]
pub struct VmmProcessSectionEntry {
    pub pid: u32,
    pub index: u32,
    pub name: String,
    pub name_raw: [u8; 8],
    pub misc_virtual_size: u32,
    pub virtual_address: u32,
    pub size_of_raw_data: u32,
    pub pointer_to_raw_data: u32,
    pub pointer_to_relocations: u32,
    pub pointer_to_linenumbers: u32,
    pub number_of_relocations: u16,
    pub number_of_linenumbers: u16,
    pub characteristics: u32,
}

/// A thread of a process.
#[derive(Debug, Clone)]
pub struct VmmProcessMapThreadEntry {
    pub pid: u32,
    pub thread_id: u32,
    pub thread_pid: u32,
    pub exit_status: u32,
    pub state: u8,
    pub running: u8,
    pub priority: u8,
    pub priority_base: u8,
    pub va_ethread: u64,
    pub va_teb: u64,
    pub ft_create_time: u64,
    pub ft_exit_time: u64,
    pub va_start_address: u64,
    pub va_win32_start_address: u64,
    pub va_stack_user_base: u64,
    pub va_stack_user_limit: u64,
    pub va_stack_kernel_base: u64,
    pub va_stack_kernel_limit: u64,
    pub va_trap_frame: u64,
    pub va_rip: u64,
    pub va_rsp: u64,
    pub affinity: u64,
    pub user_time: u32,
    pub kernel_time: u32,
    pub suspend_count: u8,
    pub wait_reason: u8,
}

/// A module that was unloaded from a process.
#[derive(Debug, Clone)]
pub struct VmmProcessMapUnloadedModuleEntry {
    pub pid: u32,
    pub va_base: u64,
    pub image_size: u32,
    pub is_wow64: bool,
    pub name: String,
    pub checksum: u32,
    pub timedatestamp: u32,
    pub ft_unload: u64,
}

/// A virtual address descriptor of a process.
#[derive(Debug, Clone)]
pub struct VmmProcessMapVadEntry {
    pub pid: u32,
    pub va_start: u64,
    pub va_end: u64,
    pub va_vad: u64,
    pub u0: u32,
    pub u1: u32,
    pub u2: u32,
    pub commit_charge: u32,
    pub is_mem_commit: bool,
    pub cb_prototype_pte: u32,
    pub va_prototype_pte: u64,
    pub va_subsection: u64,
    pub va_file_object: u64,
    pub info: String,
    pub vadex_page_base: u32,
    pub vadex_page_count: u32,
}

/// A page inside a virtual address descriptor.
#[derive(Debug, Clone)]
pub struct VmmProcessMapVadExEntry {
    pub pid: u32,
    pub tp: VmmProcessMapVadExType,
    pub i_pml: u32,
    pub va: u64,
    pub pa: u64,
    pub pte: u64,
    pub proto_tp: VmmProcessMapVadExType,
    pub proto_pa: u64,
    pub proto_pte: u64,
    pub va_vad_base: u64,
}

/// What the engine tells a plugin about the analysed system when it loads it.
#[derive(Debug, Clone)]
pub struct VmmPluginInitializationInfo {
    pub tp_system: VmmSystemType,
    pub tp_memorymodel: VmmMemoryModelType,
    pub version_major: u32,
    pub version_minor: u32,
    pub version_build: u32,
}

impl PartialEq for VmmMapNetEntry {
    fn eq(&self, other: &VmmMapNetEntry) -> (r: bool) {
        self.va_object == other.va_object
    }
}

impl vstd::std_specs::cmp::PartialEqSpecImpl for VmmMapNetEntry {
    open spec fn obeys_eq_spec() -> bool {
        true
    }

    /// Two connections are the same when they describe the same kernel object.
    open spec fn eq_spec(&self, other: &VmmMapNetEntry) -> bool {
        self.va_object == other.va_object
    }
}

impl PartialEq for VmmMapPoolEntry {
    fn eq(&self, other: &VmmMapPoolEntry) -> (r: bool) {
        self.va == other.va
    }
}

impl vstd::std_specs::cmp::PartialEqSpecImpl for VmmMapPoolEntry {
    open spec fn obeys_eq_spec() -> bool {
        true
    }

    /// Two pool entries are the same when they start at the same address.
    open spec fn eq_spec(&self, other: &VmmMapPoolEntry) -> bool {
        self.va == other.va
    }
}

/// The four bytes of a pool tag, lowest byte first.
pub open spec fn tag_bytes(tag: u32) -> Seq<u8> {
    seq![(tag % 0x100) as u8, (tag / 0x100 % 0x100) as u8, (tag / 0x10000 % 0x100) as u8, (tag / 0x1000000) as u8]
}

/// The text `String::from_utf8_lossy` makes of `b`.
pub uninterp spec fn utf8_lossy(b: Seq<u8>) -> Seq<char>;

/// Relies on `String::from_utf8_lossy`: decodes `b` as UTF-8, each invalid
/// sequence replaced by U+FFFD; the text depends on the bytes alone, and
/// valid UTF-8 comes back as the text it encodes.
#[verifier::external_body]
fn decode_utf8_lossy(b: &[u8]) -> (r: String)
    ensures
        r@ == utf8_lossy(b@),
        vstd::utf8::valid_utf8(b@) ==> r@ == vstd::utf8::decode_utf8(b@),
{
    String::from_utf8_lossy(b).into_owned()
}

impl VmmMapPoolEntry {
    /// The pool tag as text: its four bytes, lowest first, decoded as UTF-8.
    pub fn tag_to_string(&self) -> (r: String)
        ensures
            r@ == utf8_lossy(tag_bytes(self.tag)),
            vstd::utf8::valid_utf8(tag_bytes(self.tag)) ==> r@ == vstd::utf8::decode_utf8(tag_bytes(self.tag)),
    {
        let t = self.tag;
        let b: [u8; 4] = [(t % 0x100) as u8, (t / 0x100 % 0x100) as u8, (t / 0x10000 % 0x100) as u8, (t / 0x1000000) as u8];
        let v = vstd::slice::slice_to_vec(b.as_slice());
        assert(v@ =~= tag_bytes(t));
        decode_utf8_lossy(v.as_slice())
    }
}

/// Character of the hexadecimal digit `d` (lower case).
pub open spec fn hex_char(d: int) -> char {
    if d < 10 {
        ('0' as int + d) as char
    } else {
        ('a' as int + d - 10) as char
    }
}

/// Lower-case hexadecimal digits of `v`, without leading zeros (`0` for zero).
pub open spec fn hex_text(v: nat) -> Seq<char>
    decreases v,
{
    if v < 16 {
        seq![hex_char(v as int)]
    } else {
        hex_text(v / 16).push(hex_char((v % 16) as int))
    }
}

fn digit_text(d: u64) -> (r: &'static str)
    requires
        d < 16,
    ensures
        r@ == seq![hex_char(d as int)],
{
    match d {
        0 => {
            proof {
                reveal_strlit("0");
            }
            "0"
        },
        1 => {
            proof {
                reveal_strlit("1");
            }
            "1"
        },
        2 => {
            proof {
                reveal_strlit("2");
            }
            "2"
        },
        3 => {
            proof {
                reveal_strlit("3");
            }
            "3"
        },
        4 => {
            proof {
                reveal_strlit("4");
            }
            "4"
        },
        5 => {
            proof {
                reveal_strlit("5");
            }
            "5"
        },
        6 => {
            proof {
                reveal_strlit("6");
            }
            "6"
        },
        7 => {
            proof {
                reveal_strlit("7");
            }
            "7"
        },
        8 => {
            proof {
                reveal_strlit("8");
            }
            "8"
        },
        9 => {
            proof {
                reveal_strlit("9");
            }
            "9"
        },
        10 => {
            proof {
                reveal_strlit("a");
            }
            "a"
        },
        11 => {
            proof {
                reveal_strlit("b");
            }
            "b"
        },
        12 => {
            proof {
                reveal_strlit("c");
            }
            "c"
        },
        13 => {
            proof {
                reveal_strlit("d");
            }
            "d"
        },
        14 => {
            proof {
                reveal_strlit("e");
            }
            "e"
        },
        _ => {
            proof {
                reveal_strlit("f");
            }
            "f"
        },
    }
}

/// Appends the hexadecimal digits of `v` to `s`.
pub(crate) fn push_hex(s: &mut String, v: u64)
    ensures
        final(s)@ == old(s)@ + hex_text(v as nat),
    decreases v,
{
    if v >= 16 {
        push_hex(s, v / 16);
    }
    s.append(digit_text(v % 16));
}

impl VmmVfsEntry {
    /// Text describing the entry: `VmmVfsEntry:D:'name'` for a directory,
    /// `VmmVfsEntry:F:'name':0x<size in hex>` for a file.
    pub fn to_string(&self) -> (r: String)
        ensures
            self.is_directory ==> r@ == "VmmVfsEntry:D:'"@ + self.name@ + "'"@,
            !self.is_directory ==> r@ == "VmmVfsEntry:F:'"@ + self.name@ + "':0x"@ + hex_text(self.size as nat),
    {
        if self.is_directory {
            let mut s = String::from_str("VmmVfsEntry:D:'");
            s.append(self.name.as_str());
            s.append("'");
            s
        } else {
            let mut s = String::from_str("VmmVfsEntry:F:'");
            s.append(self.name.as_str());
            s.append("':0x");
            push_hex(&mut s, self.size);
            s
        }
    }
}

impl VmmPluginInitializationInfo {
    /// The system description from the engine's numeric codes.
    pub fn from_native(tp_system: u32, tp_memorymodel: u32, version_major: u32, version_minor: u32, version_build: u32) -> (r: VmmPluginInitializationInfo)
        ensures
            r.tp_system == <VmmSystemType as vstd::std_specs::convert::FromSpec<u32>>::from_spec(tp_system),
            r.tp_memorymodel == <VmmMemoryModelType as vstd::std_specs::convert::FromSpec<u32>>::from_spec(tp_memorymodel),
            r.version_major == version_major,
            r.version_minor == version_minor,
            r.version_build == version_build,
    {
        VmmPluginInitializationInfo {
            tp_system: VmmSystemType::from(tp_system),
            tp_memorymodel: VmmMemoryModelType::from(tp_memorymodel),
            version_major,
            version_minor,
            version_build,
        }
    }
}

} // verus!
