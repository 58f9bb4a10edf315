//! Verified core of a host-side API over a native memory-forensics engine:
//! session ownership, batched scatter/gather memory I/O, asynchronous
//! multi-term memory search and plugin registration.
//!
//! - `session`: which session closes which engine handle, and when.
//! - `scatter`: prepared reads and writes of a batch, and read-back of what
//!   an execution returned.
//! - `search`: search terms, ranges and the job lifecycle.
//! - `plugin`: registration checks, path encoding and trampoline replies.
//! - `image`: a flat memory that executes batches and searches.
//! - `registry`: typed registry values from raw data.
//! - `kinds`, `records`: the engine's record types and code decoding.
use vstd::prelude::*;

pub mod error;
pub mod image;
pub mod kinds;
pub mod plugin;
pub mod records;
pub mod registry;
pub mod scatter;
pub mod search;
pub mod session;

verus! {

// Read flags.
pub const FLAG_NOCACHE: u64 = 0x0001;
pub const FLAG_ZEROPAD_ON_FAIL: u64 = 0x0002;
pub const FLAG_FORCECACHE_READ: u64 = 0x0008;
pub const FLAG_NOPAGING: u64 = 0x0010;
pub const FLAG_NOPAGING_IO: u64 = 0x0020;
pub const FLAG_NOCACHEPUT: u64 = 0x0100;
pub const FLAG_CACHE_RECENT_ONLY: u64 = 0x0200;
pub const FLAG_NO_PREDICTIVE_READ: u64 = 0x0400;
pub const FLAG_FORCECACHE_READ_DISABLE: u64 = 0x0800;

// Configuration options.
pub const CONFIG_OPT_CORE_PRINTF_ENABLE: u64 = 0x4000000100000000;
pub const CONFIG_OPT_CORE_VERBOSE: u64 = 0x4000000200000000;
pub const CONFIG_OPT_CORE_VERBOSE_EXTRA: u64 = 0x4000000300000000;
pub const CONFIG_OPT_CORE_VERBOSE_EXTRA_TLP: u64 = 0x4000000400000000;
pub const CONFIG_OPT_CORE_MAX_NATIVE_ADDRESS: u64 = 0x4000000800000000;
pub const CONFIG_OPT_CORE_SYSTEM: u64 = 0x2000000100000000;
pub const CONFIG_OPT_CORE_MEMORYMODEL: u64 = 0x2000000200000000;
pub const CONFIG_OPT_CONFIG_IS_REFRESH_ENABLED: u64 = 0x2000000300000000;
pub const CONFIG_OPT_CONFIG_TICK_PERIOD: u64 = 0x2000000400000000;
pub const CONFIG_OPT_CONFIG_READCACHE_TICKS: u64 = 0x2000000500000000;
pub const CONFIG_OPT_CONFIG_TLBCACHE_TICKS: u64 = 0x2000000600000000;
pub const CONFIG_OPT_CONFIG_PROCCACHE_TICKS_PARTIAL: u64 = 0x2000000700000000;
pub const CONFIG_OPT_CONFIG_PROCCACHE_TICKS_TOTAL: u64 = 0x2000000800000000;
pub const CONFIG_OPT_CONFIG_VMM_VERSION_MAJOR: u64 = 0x2000000900000000;
pub const CONFIG_OPT_CONFIG_VMM_VERSION_MINOR: u64 = 0x2000000A00000000;
pub const CONFIG_OPT_CONFIG_VMM_VERSION_REVISION: u64 = 0x2000000B00000000;
pub const CONFIG_OPT_CONFIG_STATISTICS_FUNCTIONCALL: u64 = 0x2000000C00000000;
pub const CONFIG_OPT_CONFIG_IS_PAGING_ENABLED: u64 = 0x2000000D00000000;
pub const CONFIG_OPT_CONFIG_DEBUG: u64 = 0x2000000E00000000;
pub const CONFIG_OPT_WIN_VERSION_MAJOR: u64 = 0x2000010100000000;
pub const CONFIG_OPT_WIN_VERSION_MINOR: u64 = 0x2000010200000000;
pub const CONFIG_OPT_WIN_VERSION_BUILD: u64 = 0x2000010300000000;
pub const CONFIG_OPT_WIN_SYSTEM_UNIQUE_ID: u64 = 0x2000010400000000;
pub const CONFIG_OPT_FORENSIC_MODE: u64 = 0x2000020100000000;
pub const CONFIG_OPT_REFRESH_ALL: u64 = 0x2001ffff00000000;
pub const CONFIG_OPT_REFRESH_FREQ_MEM: u64 = 0x2001100000000000;
pub const CONFIG_OPT_REFRESH_FREQ_MEM_PARTIAL: u64 = 0x2001000200000000;
pub const CONFIG_OPT_REFRESH_FREQ_TLB: u64 = 0x2001080000000000;
pub const CONFIG_OPT_REFRESH_FREQ_TLB_PARTIAL: u64 = 0x2001000400000000;
pub const CONFIG_OPT_REFRESH_FREQ_FAST: u64 = 0x2001040000000000;
pub const CONFIG_OPT_REFRESH_FREQ_MEDIUM: u64 = 0x2001000100000000;
pub const CONFIG_OPT_REFRESH_FREQ_SLOW: u64 = 0x2001001000000000;
pub const CONFIG_OPT_PROCESS_DTB: u64 = 0x2002000100000000;

} // verus!
