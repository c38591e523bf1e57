use vstd::prelude::*;

verus! {

/// The mode a native window is created in.
#[derive(Debug, Clone, Copy, PartialEq, Eq, Structural)]
pub enum WindowMode {
    /// An ordinary window.
    Windowed,
    /// A window covering the primary monitor.
    FullScreen,
}

/// One deferred unit of work, enqueued by any thread and executed exclusively
/// by the thread that owns the native context.
///
/// Each variant captures the plain arguments of one requested operation; the
/// owner thread performs exactly one state transition per instruction.
#[derive(Debug)]
pub enum Instruction {
    /// Create a native window, register it, and report the new identifier.
    CreateWindow { width: u32, height: u32, title: String, fullscreen: bool },
    /// Remove the identifier from the registry; a no-op when it is absent.
    DestroyWindow { id: i32 },
    /// Run a custom owner-thread action, named by a tag, on one window.
    UseWindow { id: i32, action: u64 },
}

/// The mode a window ends up in: fullscreen is honoured only when a monitor
/// is available, otherwise creation falls back to windowed mode.
pub open spec fn mode_spec(fullscreen: bool, monitor_available: bool) -> WindowMode {
    if fullscreen && monitor_available {
        WindowMode::FullScreen
    } else {
        WindowMode::Windowed
    }
}

/// Resolve the mode a window is created in. Requesting fullscreen when no
/// monitor is available degrades gracefully to a windowed creation; it is
/// never an error.
pub fn resolve_mode(fullscreen: bool, monitor_available: bool) -> (mode: WindowMode)
    ensures
        mode == mode_spec(fullscreen, monitor_available),
{
    if fullscreen && monitor_available {
        WindowMode::FullScreen
    } else {
        WindowMode::Windowed
    }
}

} // verus!
