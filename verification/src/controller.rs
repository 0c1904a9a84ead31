//! The presentation mode controller: the state machine over the
//! wallpaper-docked and mini-compact axes, and the plans it hands the host
//! for each transition.
//!
//! The two axes are combined into one controller because both touch the
//! same window's size and decoration attributes, and their transitions must
//! not interleave; the host serialises transitions (one at a time) while
//! state reads stay free. A transition is split into two steps: a
//! `prepare_*` call validates the request against the current state and
//! produces the plan of window operations, without changing any state, and
//! [`Controller::commit`] flips the mode flag once the host has carried the
//! whole plan out. A window operation that fails mid-plan is surfaced by
//! the host as [`ModeError::WindowOperationFailed`]; nothing is rolled
//! back and the flag stays unchanged, so retrying the same transition is
//! the recovery path. The one exception is [`Controller::forced_exit`],
//! which flips both flags off unconditionally, because a failure to detach
//! must never block process shutdown.

use vstd::prelude::*;

use crate::errors::ModeError;
use crate::geometry::Dim;
use crate::geometry::GeometryRect;
use crate::geometry::Point;
use crate::geometry::screen_to_container;
use crate::geometry::to_container_space;
use crate::monitors::MonitorDescriptor;
use crate::monitors::monitors_on_screen;
use crate::monitors::resolve_monitor;
use crate::monitors::resolve_monitor_spec;
use crate::state::ModeState;
use crate::window::InsertionPoint;
use crate::window::WindowOp;

verus! {

/// Width of the default windowed presentation restored on mode exit.
pub const DEFAULT_WINDOW_WIDTH: u32 = 800;

/// Height of the default windowed presentation restored on mode exit.
pub const DEFAULT_WINDOW_HEIGHT: u32 = 600;

/// Smallest width the window may be resized to in normal presentation.
pub const NORMAL_MIN_WIDTH: u32 = 600;

/// Smallest height the window may be resized to in normal presentation.
pub const NORMAL_MIN_HEIGHT: u32 = 400;

/// Fixed width of the compact mini presentation.
pub const MINI_WIDTH: u32 = 200;

/// Fixed height of the compact mini presentation.
pub const MINI_HEIGHT: u32 = 35;

/// The default windowed size restored when a mode is exited.
pub open spec fn default_window_size() -> Dim {
    Dim { width: DEFAULT_WINDOW_WIDTH, height: DEFAULT_WINDOW_HEIGHT }
}

/// The minimum size enforced in normal presentation.
pub open spec fn normal_min_size() -> Dim {
    Dim { width: NORMAL_MIN_WIDTH, height: NORMAL_MIN_HEIGHT }
}

/// The fixed footprint of the mini presentation.
pub open spec fn mini_size() -> Dim {
    Dim { width: MINI_WIDTH, height: MINI_HEIGHT }
}

/// One edge of the mode state machine.
#[derive(Clone, Copy, PartialEq, Eq, Structural, Debug)]
pub enum Transition {
    EnterWallpaper,
    ExitWallpaper,
    EnterMini,
    ExitMini,
}

/// A transition may only be taken from a state where its axis is in the
/// opposite position; calling for any other transition is a caller error,
/// and callers check state first.
pub open spec fn transition_enabled(s: ModeState, t: Transition) -> bool {
    match t {
        Transition::EnterWallpaper => !s.wallpaper_docked,
        Transition::ExitWallpaper => s.wallpaper_docked,
        Transition::EnterMini => !s.mini_compact,
        Transition::ExitMini => s.mini_compact,
    }
}

/// The state after a transition: exactly one axis flips, the other is
/// untouched.
pub open spec fn apply_transition(s: ModeState, t: Transition) -> ModeState {
    match t {
        Transition::EnterWallpaper => ModeState { wallpaper_docked: true, ..s },
        Transition::ExitWallpaper => ModeState { wallpaper_docked: false, ..s },
        Transition::EnterMini => ModeState { mini_compact: true, ..s },
        Transition::ExitMini => ModeState { mini_compact: false, ..s },
    }
}

/// The plan that docks the window into the background container, filling
/// the target rectangle.
///
/// The order is load-bearing: the window is sized and positioned to the
/// target *in screen coordinates first*, then reparented, then positioned
/// and sized again in the insertion point's coordinate space and pushed to
/// the bottom of the z-order. The window system interprets a position
/// against the parent current at the moment of the call, so setting the
/// container-relative coordinates before reparenting would place the
/// window in the wrong frame once reparented.
pub open spec fn enter_wallpaper_ops(target: GeometryRect, ip: InsertionPoint) -> Seq<WindowOp> {
    seq![
        WindowOp::SetDecorations(false),
        WindowOp::SetResizable(false),
        WindowOp::SetPosition(target.origin()),
        WindowOp::SetSize(target.size()),
        WindowOp::Reparent(ip),
        WindowOp::SetPosition(to_container_space(target.origin(), ip.origin)),
        WindowOp::SetSize(target.size()),
        WindowOp::PlaceAtBottom,
    ]
}

/// The plan that restores the window from wallpaper mode: detach to
/// top-level, restore decorations and resizability, clear always-on-top,
/// reset to the default windowed size, recenter on the primary display,
/// and restore input focus.
pub open spec fn exit_wallpaper_ops() -> Seq<WindowOp> {
    seq![
        WindowOp::Detach,
        WindowOp::SetDecorations(true),
        WindowOp::SetResizable(true),
        WindowOp::SetAlwaysOnTop(false),
        WindowOp::SetSize(default_window_size()),
        WindowOp::Center,
        WindowOp::FocusWindow,
    ]
}

/// The plan that enters the compact mini presentation: strip decorations,
/// forbid resizing, keep the window on top, clamp minimum, maximum and
/// actual size to the fixed footprint, and ask for rounded corners
/// (best-effort cosmetics).
pub open spec fn enter_mini_ops() -> Seq<WindowOp> {
    seq![
        WindowOp::SetDecorations(false),
        WindowOp::SetResizable(false),
        WindowOp::SetAlwaysOnTop(true),
        WindowOp::SetMinSize(Some(mini_size())),
        WindowOp::SetMaxSize(Some(mini_size())),
        WindowOp::SetSize(mini_size()),
        WindowOp::RoundCorners,
    ]
}

/// The plan that leaves the mini presentation: restore the normal minimum
/// size and lift the maximum first, then restore decorations and
/// resizability, stop staying on top, restore the default windowed size
/// and recenter.
pub open spec fn exit_mini_ops() -> Seq<WindowOp> {
    seq![
        WindowOp::SetMinSize(Some(normal_min_size())),
        WindowOp::SetMaxSize(None),
        WindowOp::SetDecorations(true),
        WindowOp::SetResizable(true),
        WindowOp::SetAlwaysOnTop(false),
        WindowOp::SetSize(default_window_size()),
        WindowOp::Center,
    ]
}

/// The combined plan of the forced-exit sequence from state `s`: leave
/// wallpaper mode if docked, then leave mini mode if compact.
pub open spec fn forced_exit_ops(s: ModeState) -> Seq<WindowOp> {
    (if s.wallpaper_docked {
        exit_wallpaper_ops()
    } else {
        Seq::<WindowOp>::empty()
    }) + (if s.mini_compact {
        exit_mini_ops()
    } else {
        Seq::<WindowOp>::empty()
    })
}

/// What a wallpaper-mode entry request resolves to: refused outright on an
/// unsupported platform; then the monitor selector is resolved (and its
/// errors surfaced) before anything else; then a missing insertion point is
/// reported; otherwise the docking plan against the selected monitor's
/// rectangle.
pub open spec fn wallpaper_entry_spec(
    supported: bool,
    ms: Seq<MonitorDescriptor>,
    selector: Option<usize>,
    layer: Option<InsertionPoint>,
) -> Result<Seq<WindowOp>, ModeError> {
    if !supported {
        Err(ModeError::UnsupportedPlatform)
    } else {
        match resolve_monitor_spec(ms, selector) {
            Ok(i) => match layer {
                Some(ip) => Ok(enter_wallpaper_ops(ms[i].rect(), ip)),
                None => Err(ModeError::DesktopLayerUnavailable),
            },
            Err(e) => Err(e),
        }
    }
}

/// What the wallpaper-mode command resolves to from state `s`: it toggles,
/// so when the window is already docked it is the exit plan, otherwise the
/// entry resolution above.
pub open spec fn wallpaper_toggle_spec(
    supported: bool,
    s: ModeState,
    ms: Seq<MonitorDescriptor>,
    selector: Option<usize>,
    layer: Option<InsertionPoint>,
) -> Result<(Transition, Seq<WindowOp>), ModeError> {
    if !supported {
        Err(ModeError::UnsupportedPlatform)
    } else if s.wallpaper_docked {
        Ok((Transition::ExitWallpaper, exit_wallpaper_ops()))
    } else {
        match wallpaper_entry_spec(supported, ms, selector, layer) {
            Ok(ops) => Ok((Transition::EnterWallpaper, ops)),
            Err(e) => Err(e),
        }
    }
}

/// Which transition the mini-mode command takes from state `s`: it
/// toggles.
pub open spec fn mini_toggle_transition(s: ModeState) -> Transition {
    if s.mini_compact {
        Transition::ExitMini
    } else {
        Transition::EnterMini
    }
}

/// Owns the mode flags of the one controlled window and decides every
/// transition. Created at process start with both flags off; whether the
/// wallpaper docking technique is available on this host is fixed at
/// construction (capability-checked once, not branched on throughout).
pub struct Controller {
    state: ModeState,
    wallpaper_supported: bool,
}

impl Controller {
    /// The current mode flags.
    pub closed spec fn mode(self) -> ModeState {
        self.state
    }

    /// Whether wallpaper docking is available on this host.
    pub closed spec fn supports_wallpaper(self) -> bool {
        self.wallpaper_supported
    }

    /// A controller for a freshly started process: both flags off.
    pub fn new(wallpaper_supported: bool) -> (c: Controller)
        ensures
            c.mode().is_initial(),
            c.supports_wallpaper() == wallpaper_supported,
    {
        Controller { state: ModeState::initial(), wallpaper_supported }
    }

    /// A pure read of the mode flags; never fails, callable from any
    /// observer.
    pub fn current_state(&self) -> (s: ModeState)
        ensures
            s == self.mode(),
    {
        self.state
    }

    /// Validates a wallpaper-mode entry and produces the docking plan.
    /// Changes no state: the host carries the plan out and then commits
    /// [`Transition::EnterWallpaper`]. The insertion point must have been
    /// resolved freshly for this call, never cached.
    pub fn prepare_enter_wallpaper(
        &self,
        monitors: &Vec<MonitorDescriptor>,
        selector: Option<usize>,
        layer: Option<InsertionPoint>,
    ) -> (r: Result<Vec<WindowOp>, ModeError>)
        requires
            !self.mode().wallpaper_docked,
            monitors_on_screen(monitors@),
            layer matches Some(ip) ==> ip.origin.on_screen(),
        ensures
            r matches Ok(v) ==> wallpaper_entry_spec(
                self.supports_wallpaper(),
                monitors@,
                selector,
                layer,
            ) matches Ok(s) && v@ == s,
            r matches Err(e) ==> wallpaper_entry_spec(
                self.supports_wallpaper(),
                monitors@,
                selector,
                layer,
            ) == Err::<Seq<WindowOp>, ModeError>(e),
    {
        if !self.wallpaper_supported {
            return Err(ModeError::UnsupportedPlatform);
        }
        let idx: usize;
        match resolve_monitor(monitors, selector) {
            Ok(i) => {
                idx = i;
            },
            Err(e) => {
                return Err(e);
            },
        }
        match layer {
            Some(ip) => {
                let m = &monitors[idx];
                let target = GeometryRect {
                    x: m.position.x,
                    y: m.position.y,
                    width: m.size.width,
                    height: m.size.height,
                };
                assert(target == monitors@[idx as int].rect());
                Ok(build_enter_wallpaper_ops(&target, ip))
            },
            None => Err(ModeError::DesktopLayerUnavailable),
        }
    }

    /// Produces the plan that restores the window from wallpaper mode.
    /// Changes no state: the host carries the plan out and then commits
    /// [`Transition::ExitWallpaper`]. Calling while not docked is a caller
    /// error — callers check state first.
    pub fn prepare_exit_wallpaper(&self) -> (v: Vec<WindowOp>)
        requires
            self.mode().wallpaper_docked,
        ensures
            v@ == exit_wallpaper_ops(),
    {
        build_exit_wallpaper_ops()
    }

    /// Produces the plan that enters the mini presentation. Changes no
    /// state: the host carries the plan out and then commits
    /// [`Transition::EnterMini`].
    pub fn prepare_enter_mini(&self) -> (v: Vec<WindowOp>)
        requires
            !self.mode().mini_compact,
        ensures
            v@ == enter_mini_ops(),
    {
        build_enter_mini_ops()
    }

    /// Produces the plan that leaves the mini presentation. Changes no
    /// state: the host carries the plan out and then commits
    /// [`Transition::ExitMini`].
    pub fn prepare_exit_mini(&self) -> (v: Vec<WindowOp>)
        requires
            self.mode().mini_compact,
        ensures
            v@ == exit_mini_ops(),
    {
        build_exit_mini_ops()
    }

    /// Flips the mode flag of a transition whose plan the host has carried
    /// out in full. The other axis is untouched. After the commit the host
    /// emits its state-changed notification with the new state.
    pub fn commit(&mut self, t: Transition)
        requires
            transition_enabled(old(self).mode(), t),
        ensures
            final(self).mode() == apply_transition(old(self).mode(), t),
            final(self).supports_wallpaper() == old(self).supports_wallpaper(),
    {
        match t {
            Transition::EnterWallpaper => {
                self.state.wallpaper_docked = true;
            },
            Transition::ExitWallpaper => {
                self.state.wallpaper_docked = false;
            },
            Transition::EnterMini => {
                self.state.mini_compact = true;
            },
            Transition::ExitMini => {
                self.state.mini_compact = false;
            },
        }
    }

    /// The wallpaper-mode command: toggles by current state. Returns the
    /// transition to commit after the plan succeeds, together with the
    /// plan; or the error, with no state touched.
    pub fn set_wallpaper_mode(
        &self,
        monitors: &Vec<MonitorDescriptor>,
        selector: Option<usize>,
        layer: Option<InsertionPoint>,
    ) -> (r: Result<(Transition, Vec<WindowOp>), ModeError>)
        requires
            monitors_on_screen(monitors@),
            layer matches Some(ip) ==> ip.origin.on_screen(),
        ensures
            r matches Ok(p) ==> wallpaper_toggle_spec(
                self.supports_wallpaper(),
                self.mode(),
                monitors@,
                selector,
                layer,
            ) matches Ok(q) && p.0 == q.0 && p.1@ == q.1,
            r matches Ok(p) ==> transition_enabled(self.mode(), p.0),
            r matches Err(e) ==> wallpaper_toggle_spec(
                self.supports_wallpaper(),
                self.mode(),
                monitors@,
                selector,
                layer,
            ) == Err::<(Transition, Seq<WindowOp>), ModeError>(e),
    {
        if !self.wallpaper_supported {
            return Err(ModeError::UnsupportedPlatform);
        }
        if self.state.wallpaper_docked {
            Ok((Transition::ExitWallpaper, build_exit_wallpaper_ops()))
        } else {
            match self.prepare_enter_wallpaper(monitors, selector, layer) {
                Ok(ops) => Ok((Transition::EnterWallpaper, ops)),
                Err(e) => Err(e),
            }
        }
    }

    /// The mini-mode command: toggles by current state. Returns the
    /// transition to commit after the plan succeeds, together with the
    /// plan. Never fails.
    pub fn set_mini_mode(&self) -> (r: (Transition, Vec<WindowOp>))
        ensures
            r.0 == mini_toggle_transition(self.mode()),
            transition_enabled(self.mode(), r.0),
            r.1@ == if self.mode().mini_compact {
                exit_mini_ops()
            } else {
                enter_mini_ops()
            },
    {
        if self.state.mini_compact {
            (Transition::ExitMini, build_exit_mini_ops())
        } else {
            (Transition::EnterMini, build_enter_mini_ops())
        }
    }

    /// The forced-exit sequence used by quit and close handlers: the exit
    /// plans for whichever modes are active, with both flags cleared
    /// unconditionally and immediately. The host carries the plan out with
    /// every failure swallowed (logged, not propagated), because failing to
    /// detach must never block process shutdown.
    pub fn forced_exit(&mut self) -> (v: Vec<WindowOp>)
        ensures
            final(self).mode().is_initial(),
            final(self).supports_wallpaper() == old(self).supports_wallpaper(),
            v@ == forced_exit_ops(old(self).mode()),
    {
        let mut v: Vec<WindowOp> = Vec::new();
        if self.state.wallpaper_docked {
            v = build_exit_wallpaper_ops();
        }
        if self.state.mini_compact {
            let mut tail = build_exit_mini_ops();
            v.append(&mut tail);
        }
        self.state = ModeState::initial();
        proof {
            assert(v@ =~= forced_exit_ops(old(self).mode()));
        }
        v
    }
}

/// Builds [`enter_wallpaper_ops`] as a vector, converting the target
/// origin into the insertion point's coordinate space.
fn build_enter_wallpaper_ops(target: &GeometryRect, ip: InsertionPoint) -> (v: Vec<WindowOp>)
    requires
        target.on_screen(),
        ip.origin.on_screen(),
    ensures
        v@ == enter_wallpaper_ops(*target, ip),
{
    let origin = Point { x: target.x, y: target.y };
    let size = Dim { width: target.width, height: target.height };
    let relative = screen_to_container(origin, ip.origin);
    let mut v: Vec<WindowOp> = Vec::new();
    v.push(WindowOp::SetDecorations(false));
    v.push(WindowOp::SetResizable(false));
    v.push(WindowOp::SetPosition(origin));
    v.push(WindowOp::SetSize(size));
    v.push(WindowOp::Reparent(ip));
    v.push(WindowOp::SetPosition(relative));
    v.push(WindowOp::SetSize(size));
    v.push(WindowOp::PlaceAtBottom);
    proof {
        assert(v@ =~= enter_wallpaper_ops(*target, ip));
    }
    v
}

/// Builds [`exit_wallpaper_ops`] as a vector.
fn build_exit_wallpaper_ops() -> (v: Vec<WindowOp>)
    ensures
        v@ == exit_wallpaper_ops(),
{
    let mut v: Vec<WindowOp> = Vec::new();
    v.push(WindowOp::Detach);
    v.push(WindowOp::SetDecorations(true));
    v.push(WindowOp::SetResizable(true));
    v.push(WindowOp::SetAlwaysOnTop(false));
    v.push(WindowOp::SetSize(Dim { width: DEFAULT_WINDOW_WIDTH, height: DEFAULT_WINDOW_HEIGHT }));
    v.push(WindowOp::Center);
    v.push(WindowOp::FocusWindow);
    proof {
        assert(v@ =~= exit_wallpaper_ops());
    }
    v
}

/// Builds [`enter_mini_ops`] as a vector.
fn build_enter_mini_ops() -> (v: Vec<WindowOp>)
    ensures
        v@ == enter_mini_ops(),
{
    let mini = Dim { width: MINI_WIDTH, height: MINI_HEIGHT };
    let mut v: Vec<WindowOp> = Vec::new();
    v.push(WindowOp::SetDecorations(false));
    v.push(WindowOp::SetResizable(false));
    v.push(WindowOp::SetAlwaysOnTop(true));
    v.push(WindowOp::SetMinSize(Some(mini)));
    v.push(WindowOp::SetMaxSize(Some(mini)));
    v.push(WindowOp::SetSize(mini));
    v.push(WindowOp::RoundCorners);
    proof {
        assert(v@ =~= enter_mini_ops());
    }
    v
}

/// Builds [`exit_mini_ops`] as a vector.
fn build_exit_mini_ops() -> (v: Vec<WindowOp>)
    ensures
        v@ == exit_mini_ops(),
{
    let mut v: Vec<WindowOp> = Vec::new();
    v.push(WindowOp::SetMinSize(Some(Dim { width: NORMAL_MIN_WIDTH, height: NORMAL_MIN_HEIGHT })));
    v.push(WindowOp::SetMaxSize(None));
    v.push(WindowOp::SetDecorations(true));
    v.push(WindowOp::SetResizable(true));
    v.push(WindowOp::SetAlwaysOnTop(false));
    v.push(WindowOp::SetSize(Dim { width: DEFAULT_WINDOW_WIDTH, height: DEFAULT_WINDOW_HEIGHT }));
    v.push(WindowOp::Center);
    proof {
        assert(v@ =~= exit_mini_ops());
    }
    v
}

} // verus!
