//! Plugin registration bridge: the checks and encodings between a plugin's
//! registration and the engine's native registration record, and the replies
//! the bridge's trampolines give the engine.
//!
//! A registration is consumed by `register`, so it cannot be used twice.
use vstd::prelude::*;
use vstd::utf8::{decode_utf8, encode_utf8, valid_utf8};
use crate::error::VmmError;

verus! {

/// Magic value of a plugin call context the engine passes to a trampoline.
pub const PLUGIN_CONTEXT_MAGIC: u64 = 0xc0ffee663df9301c;
/// Version of the plugin call context this bridge understands.
pub const PLUGIN_CONTEXT_VERSION: u16 = 5;
/// Magic value of the engine's plugin registration record.
pub const PLUGIN_REGINFO_MAGIC: u64 = 0xc0ffee663df9301d;
/// Version of the registration record this bridge understands.
pub const PLUGIN_REGINFO_VERSION: u16 = 16;
/// Size of the registration record's path field, terminating NUL included.
pub const PLUGIN_PATH_CAPACITY: usize = 128;

/// Status: the call succeeded.
pub const STATUS_SUCCESS: u32 = 0x00000000;
/// Status: nothing more to read.
pub const STATUS_END_OF_FILE: u32 = 0xC0000011;
/// Status: the call was rejected.
pub const STATUS_FILE_INVALID: u32 = 0xC0000098;

/// Notification: the verbosity changed.
pub const PLUGIN_NOTIFY_VERBOSITYCHANGE: u32 = 0x01;
/// Notification: fast periodic refresh.
pub const PLUGIN_NOTIFY_REFRESH_FAST: u32 = 0x05;
/// Notification: medium periodic refresh.
pub const PLUGIN_NOTIFY_REFRESH_MEDIUM: u32 = 0x02;
/// Notification: slow periodic refresh.
pub const PLUGIN_NOTIFY_REFRESH_SLOW: u32 = 0x04;
/// Notification: forensic mode initialization started.
pub const PLUGIN_NOTIFY_FORENSIC_INIT: u32 = 0x01000100;
/// Notification: forensic mode initialization completed.
pub const PLUGIN_NOTIFY_FORENSIC_INIT_COMPLETE: u32 = 0x01000200;
/// Notification: a virtual machine was attached or detached.
pub const PLUGIN_NOTIFY_VM_ATTACH_DETACH: u32 = 0x01000400;

/// An event the engine notifies a plugin of.
#[derive(Debug, Clone, Copy, PartialEq, Eq, Structural)]
pub enum PluginEvent {
    VerbosityChange,
    RefreshFast,
    RefreshMedium,
    RefreshSlow,
    ForensicInit,
    ForensicInitComplete,
    VmAttachDetach,
    Other(u32),
}

impl From<u32> for PluginEvent {
    fn from(v: u32) -> Self {
        if v == PLUGIN_NOTIFY_VERBOSITYCHANGE {
            PluginEvent::VerbosityChange
        } else if v == PLUGIN_NOTIFY_REFRESH_FAST {
            PluginEvent::RefreshFast
        } else if v == PLUGIN_NOTIFY_REFRESH_MEDIUM {
            PluginEvent::RefreshMedium
        } else if v == PLUGIN_NOTIFY_REFRESH_SLOW {
            PluginEvent::RefreshSlow
        } else if v == PLUGIN_NOTIFY_FORENSIC_INIT {
            PluginEvent::ForensicInit
        } else if v == PLUGIN_NOTIFY_FORENSIC_INIT_COMPLETE {
            PluginEvent::ForensicInitComplete
        } else if v == PLUGIN_NOTIFY_VM_ATTACH_DETACH {
            PluginEvent::VmAttachDetach
        } else {
            PluginEvent::Other(v)
        }
    }
}

impl vstd::std_specs::convert::FromSpecImpl<u32> for PluginEvent {
    open spec fn obeys_from_spec() -> bool {
        true
    }

    open spec fn from_spec(v: u32) -> PluginEvent {
        if v == PLUGIN_NOTIFY_VERBOSITYCHANGE {
            PluginEvent::VerbosityChange
        } else if v == PLUGIN_NOTIFY_REFRESH_FAST {
            PluginEvent::RefreshFast
        } else if v == PLUGIN_NOTIFY_REFRESH_MEDIUM {
            PluginEvent::RefreshMedium
        } else if v == PLUGIN_NOTIFY_REFRESH_SLOW {
            PluginEvent::RefreshSlow
        } else if v == PLUGIN_NOTIFY_FORENSIC_INIT {
            PluginEvent::ForensicInit
        } else if v == PLUGIN_NOTIFY_FORENSIC_INIT_COMPLETE {
            PluginEvent::ForensicInitComplete
        } else if v == PLUGIN_NOTIFY_VM_ATTACH_DETACH {
            PluginEvent::VmAttachDetach
        } else {
            PluginEvent::Other(v)
        }
    }
}

/// The registration record the engine handed over carries the expected
/// magic value and version.
pub fn reginfo_valid(magic: u64, version: u16) -> (r: bool)
    ensures
        r == (magic == PLUGIN_REGINFO_MAGIC && version == PLUGIN_REGINFO_VERSION),
{
    magic == PLUGIN_REGINFO_MAGIC && version == PLUGIN_REGINFO_VERSION
}

/// A call context the engine passes to a trampoline carries the expected
/// magic value and version.
pub fn context_valid(magic: u64, version: u16) -> (r: bool)
    ensures
        r == (magic == PLUGIN_CONTEXT_MAGIC && version == PLUGIN_CONTEXT_VERSION),
{
    magic == PLUGIN_CONTEXT_MAGIC && version == PLUGIN_CONTEXT_VERSION
}

/// The callbacks a plugin supplies; only those get a trampoline.
#[derive(Debug, Clone, Copy, PartialEq, Eq, Structural)]
pub struct PluginCapabilities {
    pub list: bool,
    pub read: bool,
    pub write: bool,
    pub visible: bool,
    pub notify: bool,
}

/// What a plugin asks to be registered as.
pub struct PluginRegistration<T> {
    /// The plugin's own state; registration fails without it.
    pub ctx: Option<T>,
    /// Where the plugin is mounted, with `/` as separator.
    pub path_name: String,
    pub is_root_module: bool,
    pub is_root_module_hidden: bool,
    pub is_process_module: bool,
    pub is_process_module_hidden: bool,
    pub capabilities: PluginCapabilities,
}

/// What goes into the engine's registration record.
pub struct RegistrationPlan<T> {
    /// The plugin's state, to be kept for the trampolines.
    pub ctx: T,
    /// The mount path in the engine's form: `\` as separator, NUL-terminated.
    pub path: Vec<u8>,
    pub root_module: u32,
    pub root_module_hidden: u32,
    pub process_module: u32,
    pub process_module_hidden: u32,
    pub capabilities: PluginCapabilities,
}

/// A path byte in the engine's form: `/` becomes `\`.
pub open spec fn native_sep(b: u8) -> u8 {
    if b == 0x2f {
        0x5c
    } else {
        b
    }
}

/// A path byte in the plugin's form: `\` becomes `/`.
pub open spec fn plugin_sep(b: u8) -> u8 {
    if b == 0x5c {
        0x2f
    } else {
        b
    }
}

/// The engine's form of path bytes `p`: separators turned, NUL appended.
pub open spec fn native_path(p: Seq<u8>) -> Seq<u8> {
    p.map_values(|b: u8| native_sep(b)).push(0)
}

/// A native boolean field.
pub open spec fn flag(b: bool) -> u32 {
    if b {
        1
    } else {
        0
    }
}

/// The error with which a registration is refused, in the order checked:
/// a bad record, no plugin state, a NUL in the path, a path too long for the
/// record. `None` when it is accepted.
pub open spec fn registration_error(reginfo_ok: bool, has_ctx: bool, path: Seq<u8>) -> Option<VmmError> {
    if !reginfo_ok {
        Some(VmmError::VersionMismatch)
    } else if !has_ctx {
        Some(VmmError::MissingContext)
    } else if path.contains(0u8) {
        Some(VmmError::PathHasNul)
    } else if path.len() + 1 > PLUGIN_PATH_CAPACITY {
        Some(VmmError::PathTooLong)
    } else {
        None
    }
}

fn bool_flag(b: bool) -> (r: u32)
    ensures
        r == flag(b),
{
    if b {
        1
    } else {
        0
    }
}

/// Path bytes in the engine's form, or `None` if `p` holds a NUL byte.
fn encode_native_path(p: &[u8]) -> (r: Option<Vec<u8>>)
    ensures
        r is None <==> p@.contains(0u8),
        r matches Some(v) ==> v@ == native_path(p@),
{
    let mut out: Vec<u8> = Vec::new();
    let mut i: usize = 0;
    while i < p.len()
        invariant
            i <= p@.len(),
            out@ == p@.subrange(0, i as int).map_values(|b: u8| native_sep(b)),
            !p@.subrange(0, i as int).contains(0u8),
        decreases p.len() - i,
    {
        let b = p[i];
        if b == 0 {
            assert(p@[i as int] == 0u8);
            return None;
        }
        out.push(if b == 0x2f {
            0x5c
        } else {
            b
        });
        proof {
            let s = p@.subrange(0, i + 1);
            assert(s.drop_last() =~= p@.subrange(0, i as int));
            assert(out@ =~= s.map_values(|b: u8| native_sep(b)));
            assert forall|k: int| 0 <= k < s.len() implies s[k] != 0u8 by {
                if k < i {
                    assert(s[k] == p@.subrange(0, i as int)[k]);
                }
            }
        }
        i = i + 1;
    }
    assert(p@.subrange(0, p@.len() as int) =~= p@);
    out.push(0);
    Some(out)
}

impl<T> PluginRegistration<T> {
    /// Consumes the registration and produces what goes into the engine's
    /// registration record, whose magic value and version are `magic` and
    /// `version`. Refused, in this order, on a bad record, a missing plugin
    /// state, a NUL in the path, or a path that with its NUL does not fit the
    /// record's path field.
    pub fn register(self, magic: u64, version: u16) -> (r: Result<RegistrationPlan<T>, VmmError>)
        ensures
            ({
                let e = registration_error(
                    magic == PLUGIN_REGINFO_MAGIC && version == PLUGIN_REGINFO_VERSION,
                    self.ctx is Some,
                    encode_utf8(self.path_name@),
                );
                &&& (r is Err <==> e is Some)
                &&& (r matches Err(x) ==> e == Some(x))
                &&& (r matches Ok(plan) ==> {
                    &&& plan.ctx == self.ctx->0
                    &&& plan.path@ == native_path(encode_utf8(self.path_name@))
                    &&& plan.path@.len() <= PLUGIN_PATH_CAPACITY
                    &&& plan.root_module == flag(self.is_root_module)
                    &&& plan.root_module_hidden == flag(self.is_root_module_hidden)
                    &&& plan.process_module == flag(self.is_process_module)
                    &&& plan.process_module_hidden == flag(self.is_process_module_hidden)
                    &&& plan.capabilities == self.capabilities
                })
            }),
    {
        if !reginfo_valid(magic, version) {
            return Err(VmmError::VersionMismatch);
        }
        let ctx = match self.ctx {
            Some(c) => c,
            None => {
                return Err(VmmError::MissingContext);
            },
        };
        let bytes = self.path_name.as_str().as_bytes();
        let path = match encode_native_path(bytes) {
            Some(v) => v,
            None => {
                return Err(VmmError::PathHasNul);
            },
        };
        if path.len() > PLUGIN_PATH_CAPACITY {
            return Err(VmmError::PathTooLong);
        }
        Ok(RegistrationPlan {
            ctx,
            path,
            root_module: bool_flag(self.is_root_module),
            root_module_hidden: bool_flag(self.is_root_module_hidden),
            process_module: bool_flag(self.is_process_module),
            process_module_hidden: bool_flag(self.is_process_module_hidden),
            capabilities: self.capabilities,
        })
    }
}

/// Relies on `std::str::from_utf8`: succeeds exactly on valid UTF-8, and
/// then holds the characters the bytes encode.
#[verifier::external_body]
fn utf8_text(b: &[u8]) -> (r: Option<String>)
    ensures
        r is Some <==> valid_utf8(b@),
        r matches Some(s) ==> s@ == decode_utf8(b@),
{
    match std::str::from_utf8(b) {
        Ok(s) => Some(s.to_owned()),
        Err(_) => None,
    }
}

/// The path a trampoline hands to a plugin callback: the engine's path bytes
/// with `\` turned into `/`, if the call context is valid and the bytes are
/// valid UTF-8; `None` when the call must be rejected.
pub fn plugin_call_path(magic: u64, version: u16, native: &[u8]) -> (r: Option<String>)
    ensures
        !(magic == PLUGIN_CONTEXT_MAGIC && version == PLUGIN_CONTEXT_VERSION) ==> r is None,
        (magic == PLUGIN_CONTEXT_MAGIC && version == PLUGIN_CONTEXT_VERSION) ==> {
            let p = native@.map_values(|b: u8| plugin_sep(b));
            &&& (r is Some <==> valid_utf8(p))
            &&& (r matches Some(s) ==> s@ == decode_utf8(p))
        },
{
    if !context_valid(magic, version) {
        return None;
    }
    let mut out: Vec<u8> = Vec::new();
    let mut i: usize = 0;
    while i < native.len()
        invariant
            i <= native@.len(),
            out@ == native@.subrange(0, i as int).map_values(|b: u8| plugin_sep(b)),
        decreases native.len() - i,
    {
        let b = native[i];
        out.push(if b == 0x5c {
            0x2f
        } else {
            b
        });
        proof {
            let s = native@.subrange(0, i + 1);
            assert(s.drop_last() =~= native@.subrange(0, i as int));
            assert(out@ =~= s.map_values(|b: u8| plugin_sep(b)));
        }
        i = i + 1;
    }
    assert(native@.subrange(0, native@.len() as int) =~= native@);
    utf8_text(out.as_slice())
}

/// The reply of the read trampoline to the engine, as (status, bytes
/// returned): a failed callback (`None`) or a rejected call is invalid, an
/// empty answer is the end of the file, and otherwise the answer is returned,
/// cut to the `cb` bytes the engine asked for.
pub fn read_reply(data: Option<&Vec<u8>>, cb: u32) -> (r: (u32, u32))
    ensures
        data is None ==> r == (STATUS_FILE_INVALID, 0u32),
        data matches Some(d) ==> {
            if d@.len() == 0 {
                r == (STATUS_END_OF_FILE, 0u32)
            } else if d@.len() <= cb {
                r == (STATUS_SUCCESS, d@.len() as u32)
            } else {
                r == (STATUS_SUCCESS, cb)
            }
        },
{
    match data {
        None => (STATUS_FILE_INVALID, 0),
        Some(d) => {
            if d.len() == 0 {
                (STATUS_END_OF_FILE, 0)
            } else if d.len() <= cb as usize {
                (STATUS_SUCCESS, d.len() as u32)
            } else {
                (STATUS_SUCCESS, cb)
            }
        },
    }
}

/// The reply of the write trampoline, as (status, bytes written): all `cb`
/// bytes when the callback succeeded, none otherwise.
pub fn write_reply(ok: bool, cb: u32) -> (r: (u32, u32))
    ensures
        ok ==> r == (STATUS_SUCCESS, cb),
        !ok ==> r == (STATUS_FILE_INVALID, 0u32),
{
    if ok {
        (STATUS_SUCCESS, cb)
    } else {
        (STATUS_FILE_INVALID, 0)
    }
}

/// The reply of the visibility trampoline: what the callback answered, and
/// not visible when it failed (`None`) or the call was rejected.
pub fn visible_reply(answer: Option<bool>) -> (r: bool)
    ensures
        r == (answer == Some(true)),
{
    match answer {
        Some(v) => v,
        None => false,
    }
}

} // verus!
