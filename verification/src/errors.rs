//! The typed errors the controller surfaces to its callers.

use vstd::prelude::*;

verus! {

/// Why a mode transition was refused or could not be carried out. Errors
/// are value-returned, never used for normal control flow; the forced-exit
/// sequence is the one place the host deliberately swallows them.
#[derive(Clone, Copy, PartialEq, Eq, Structural, Debug)]
pub enum ModeError {
    /// The docking technique is not available on this host; no window
    /// mutation was performed.
    UnsupportedPlatform,
    /// The desktop layer locator found no valid insertion point. Expected on
    /// shell versions with a changed internal layout; the transition aborts
    /// with no state change.
    DesktopLayerUnavailable,
    /// An explicit monitor ordinal was at or beyond the enumerated count;
    /// surfaced before any window mutation.
    InvalidMonitorIndex,
    /// No enumerated monitor carries the primary flag; surfaced before any
    /// window mutation.
    NoPrimaryMonitor,
    /// An individual window-system call failed. Raised by the host while
    /// carrying a plan out; steps already applied are not rolled back, and a
    /// retry of the same transition is the recovery path.
    WindowOperationFailed,
}

impl ModeError {
    /// A fixed description of the error, for the host to log or display.
    pub fn message(&self) -> (r: &'static str)
        ensures
            r@ == self.message_spec(),
    {
        match self {
            ModeError::UnsupportedPlatform => "wallpaper docking is not supported on this platform",
            ModeError::DesktopLayerUnavailable => "no desktop background container could be located",
            ModeError::InvalidMonitorIndex => "monitor index is out of range",
            ModeError::NoPrimaryMonitor => "no monitor is flagged as primary",
            ModeError::WindowOperationFailed => "a window operation failed",
        }
    }

    /// The characters `message` returns for each variant.
    pub open spec fn message_spec(self) -> Seq<char> {
        match self {
            ModeError::UnsupportedPlatform => "wallpaper docking is not supported on this platform"@,
            ModeError::DesktopLayerUnavailable => "no desktop background container could be located"@,
            ModeError::InvalidMonitorIndex => "monitor index is out of range"@,
            ModeError::NoPrimaryMonitor => "no monitor is flagged as primary"@,
            ModeError::WindowOperationFailed => "a window operation failed"@,
        }
    }
}

} // verus!
