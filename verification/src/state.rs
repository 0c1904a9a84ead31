//! The controller's externally observable mode flags.

use vstd::prelude::*;

verus! {

/// The two orthogonal presentation axes of the controlled window.
///
/// Both flags may be true at once: the combination is reachable when the
/// host toggles the axes independently, and it arises as an intermediate
/// step of the forced-exit sequence. Steady-state UIs present the modes as
/// mutually exclusive by checking state before each transition, not because
/// this type forbids the combination.
#[derive(Clone, Copy, PartialEq, Eq, Structural, Debug)]
pub struct ModeState {
    /// The window is reparented into the desktop background container.
    pub wallpaper_docked: bool,
    /// The window is in the compact always-on-top presentation.
    pub mini_compact: bool,
}

impl ModeState {
    /// The state a freshly started process is in: neither mode active.
    pub open spec fn is_initial(self) -> bool {
        !self.wallpaper_docked && !self.mini_compact
    }

    /// Both flags off, as at process start.
    pub fn initial() -> (s: ModeState)
        ensures
            s.is_initial(),
    {
        ModeState { wallpaper_docked: false, mini_compact: false }
    }
}

/// The application-state snapshot the host serialises for its frontend.
#[derive(Clone, Copy, PartialEq, Eq, Structural, Debug)]
pub struct AppState {
    pub mini_mode: bool,
}

impl AppState {
    /// Snapshots the current mode flags into the shape the host exposes.
    pub fn current(state: &ModeState) -> (r: AppState)
        ensures
            r.mini_mode == state.mini_compact,
    {
        AppState { mini_mode: state.mini_compact }
    }
}

} // verus!
