//! Errors reported by the library.
use vstd::prelude::*;

verus! {

/// Why an operation was refused or failed.
///
/// Usage errors are detected before the engine is involved; `EngineFailure`
/// reports that the engine itself signalled failure.
#[derive(Debug, Clone, Copy, PartialEq, Eq, Structural)]
pub enum VmmError {
    /// The engine reported failure for the requested operation.
    EngineFailure,
    /// A record or token carried an unexpected magic value or version.
    VersionMismatch,
    /// A search job already holds the maximum number of terms.
    SearchTermLimit,
    /// A search pattern is empty or longer than the maximum pattern length.
    SearchPatternLength,
    /// A search alignment is not zero or a power of two no larger than a page.
    SearchAlignment,
    /// A search skip mask is longer than its pattern.
    SearchSkipMaskLength,
    /// A search range whose end does not lie above its start.
    SearchRange,
    /// A size that does not fit the engine's 32-bit length fields.
    SizeTooLarge,
    /// A push-mode read was bound with a nonzero bytes-read cell.
    PushCellNotZero,
    /// A batch was read back before it was ever executed.
    NotExecuted,
    /// A batch was read back at an address that no prepared read covers.
    NotPrepared,
    /// A virtual machine record does not belong to the given session.
    VmProvenance,
    /// A plugin registration has no user context.
    MissingContext,
    /// A plugin path contains a NUL byte.
    PathHasNul,
    /// A plugin path does not fit the engine's path field.
    PathTooLong,
    /// A registry value has an unknown type code.
    RegUnknownType,
    /// A registry value's data has a size its type does not allow.
    RegBadSize,
}

} // verus!
