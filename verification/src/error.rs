use vstd::prelude::*;

verus! {

/// The failure classes of the marshaling system.
///
/// `NativeInitFailure` and `QueueLockFailure` are fatal and can only arise in
/// the unverified runtime (a failed native initialization, a poisoned lock);
/// they are defined here so that the whole taxonomy lives in one place.
/// `NativeWindowCreationFailure` is handed back to the synchronous caller of a
/// create request. `UnknownWindow` surfaces when an operation names an
/// identifier that is absent from the registry.
#[derive(Debug, Clone, Copy, PartialEq, Eq, Structural)]
pub enum WindowError {
    /// The native windowing capability failed to initialize.
    NativeInitFailure,
    /// The native call that creates a window failed.
    NativeWindowCreationFailure,
    /// An operation named an identifier with no live registry entry.
    UnknownWindow,
    /// The lock protecting the instruction queue was found poisoned.
    QueueLockFailure,
}

} // verus!
