use memprocfs::error::VmmError;
use memprocfs::records::VmmMapVirtualMachineEntry;
use memprocfs::session::SessionHandle;

fn vm(h_vmm: usize, h_vm: usize) -> VmmMapVirtualMachineEntry {
    VmmMapVirtualMachineEntry {
        h_vmm,
        h_vm,
        name: String::from("vm"),
        gpa_max: 0,
        tp_vm: 0,
        is_active: true,
        is_readonly: false,
        is_physicalonly: false,
        partition_id: 0,
        guest_os_version_build: 0,
        guest_tp_system: 0,
        parent_mount_id: 0,
        vmmem_pid: 0,
    }
}

#[test]
fn owning_session_closes_once() {
    let mut s = SessionHandle::open(0x55).unwrap();
    assert!(s.owns_handle());
    assert_eq!(s.close(), Some(0x55));
    assert!(s.is_closed());
    assert_eq!(s.close(), None);
    assert_eq!(s.close(), None);
}

#[test]
fn failed_initialization_gives_no_session() {
    assert_eq!(SessionHandle::open(0).err(), Some(VmmError::EngineFailure));
}

#[test]
fn child_session_never_closes() {
    let parent = SessionHandle::open(0x10).unwrap();
    let token = parent.vm_token(&vm(0x10, 0x77)).unwrap();
    assert_eq!(token, 0x77);
    let mut child = parent.child(0x20).unwrap();
    assert_eq!(child.handle(), 0x20);
    assert!(!child.owns_handle());
    assert_eq!(child.close(), None);
    assert_eq!(child.close(), None);
}

#[test]
fn vm_of_another_session_is_refused() {
    let parent = SessionHandle::open(0x10).unwrap();
    assert_eq!(parent.vm_token(&vm(0x11, 0x77)), Err(VmmError::VmProvenance));
    assert_eq!(parent.child(0).err(), Some(VmmError::EngineFailure));
}

#[test]
fn borrowed_session_never_closes() {
    let mut s = SessionHandle::borrowed(0x99);
    assert_eq!(s.handle(), 0x99);
    assert_eq!(s.close(), None);
}

#[test]
fn open_after_initialization() {
    let s = SessionHandle::open_initialized(0x40, true).unwrap();
    assert!(s.owns_handle());
    assert_eq!(s.handle(), 0x40);
    assert_eq!(SessionHandle::open_initialized(0, false).err(), Some((VmmError::EngineFailure, None)));
    assert_eq!(SessionHandle::open_initialized(0x40, false).err(), Some((VmmError::EngineFailure, Some(0x40))));
}
