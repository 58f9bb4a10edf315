use memprocfs::error::VmmError;
use memprocfs::plugin::{
    context_valid, plugin_call_path, read_reply, reginfo_valid, visible_reply, write_reply, PluginCapabilities,
    PluginEvent, PluginRegistration, PLUGIN_CONTEXT_MAGIC, PLUGIN_CONTEXT_VERSION, PLUGIN_REGINFO_MAGIC,
    PLUGIN_REGINFO_VERSION, STATUS_END_OF_FILE, STATUS_FILE_INVALID, STATUS_SUCCESS,
};

fn caps() -> PluginCapabilities {
    PluginCapabilities { list: true, read: true, write: false, visible: false, notify: true }
}

fn registration(ctx: Option<u32>, path: &str) -> PluginRegistration<u32> {
    PluginRegistration {
        ctx,
        path_name: String::from(path),
        is_root_module: true,
        is_root_module_hidden: false,
        is_process_module: false,
        is_process_module_hidden: true,
        capabilities: caps(),
    }
}

#[test]
fn register_encodes_path_and_flags() {
    let plan = registration(Some(7), "/rust/example").register(PLUGIN_REGINFO_MAGIC, PLUGIN_REGINFO_VERSION).ok().unwrap();
    assert_eq!(plan.ctx, 7);
    assert_eq!(plan.path, b"\\rust\\example\0".to_vec());
    assert_eq!((plan.root_module, plan.root_module_hidden), (1, 0));
    assert_eq!((plan.process_module, plan.process_module_hidden), (0, 1));
    assert_eq!(plan.capabilities, caps());
}

#[test]
fn register_refusals_in_order() {
    let r = registration(None, "a").register(PLUGIN_REGINFO_MAGIC, PLUGIN_REGINFO_VERSION - 1);
    assert_eq!(r.err(), Some(VmmError::VersionMismatch));
    let r = registration(None, "a").register(PLUGIN_REGINFO_MAGIC, PLUGIN_REGINFO_VERSION);
    assert_eq!(r.err(), Some(VmmError::MissingContext));
    let r = registration(Some(1), "a\0b").register(PLUGIN_REGINFO_MAGIC, PLUGIN_REGINFO_VERSION);
    assert_eq!(r.err(), Some(VmmError::PathHasNul));
}

#[test]
fn register_path_length_limit() {
    let fits = "p".repeat(127);
    let plan = registration(Some(1), &fits).register(PLUGIN_REGINFO_MAGIC, PLUGIN_REGINFO_VERSION).ok().unwrap();
    assert_eq!(plan.path.len(), 128);
    let too_long = "p".repeat(128);
    let r = registration(Some(1), &too_long).register(PLUGIN_REGINFO_MAGIC, PLUGIN_REGINFO_VERSION);
    assert_eq!(r.err(), Some(VmmError::PathTooLong));
}

#[test]
fn magic_and_version_checks() {
    assert!(reginfo_valid(PLUGIN_REGINFO_MAGIC, PLUGIN_REGINFO_VERSION));
    assert!(!reginfo_valid(PLUGIN_CONTEXT_MAGIC, PLUGIN_REGINFO_VERSION));
    assert!(context_valid(PLUGIN_CONTEXT_MAGIC, PLUGIN_CONTEXT_VERSION));
    assert!(!context_valid(PLUGIN_CONTEXT_MAGIC, 4));
}

#[test]
fn trampoline_path_conversion() {
    let p = plugin_call_path(PLUGIN_CONTEXT_MAGIC, PLUGIN_CONTEXT_VERSION, b"\\rust\\file.txt");
    assert_eq!(p, Some(String::from("/rust/file.txt")));
    assert_eq!(plugin_call_path(PLUGIN_CONTEXT_MAGIC, 4, b"\\rust"), None);
    assert_eq!(plugin_call_path(PLUGIN_CONTEXT_MAGIC, PLUGIN_CONTEXT_VERSION, &[0x5c, 0xff, 0xfe]), None);
}

#[test]
fn read_write_visible_replies() {
    assert_eq!(read_reply(None, 16), (STATUS_FILE_INVALID, 0));
    assert_eq!(read_reply(Some(&vec![]), 16), (STATUS_END_OF_FILE, 0));
    assert_eq!(read_reply(Some(&vec![1, 2, 3]), 16), (STATUS_SUCCESS, 3));
    assert_eq!(read_reply(Some(&vec![1, 2, 3]), 2), (STATUS_SUCCESS, 2));
    assert_eq!(write_reply(true, 9), (STATUS_SUCCESS, 9));
    assert_eq!(write_reply(false, 9), (STATUS_FILE_INVALID, 0));
    assert!(visible_reply(Some(true)));
    assert!(!visible_reply(Some(false)));
    assert!(!visible_reply(None));
}

#[test]
fn notification_taxonomy() {
    assert_eq!(PluginEvent::from(0x01), PluginEvent::VerbosityChange);
    assert_eq!(PluginEvent::from(0x05), PluginEvent::RefreshFast);
    assert_eq!(PluginEvent::from(0x02), PluginEvent::RefreshMedium);
    assert_eq!(PluginEvent::from(0x04), PluginEvent::RefreshSlow);
    assert_eq!(PluginEvent::from(0x01000100), PluginEvent::ForensicInit);
    assert_eq!(PluginEvent::from(0x01000200), PluginEvent::ForensicInitComplete);
    assert_eq!(PluginEvent::from(0x01000400), PluginEvent::VmAttachDetach);
    assert_eq!(PluginEvent::from(0x03), PluginEvent::Other(3));
}
