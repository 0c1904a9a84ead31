//! The properties that relate the controller's pieces to one another:
//! what a whole plan does to the window, and how the two mode axes
//! interact. Each law is stated over the same spec functions the
//! executable functions' contracts use.

use vstd::prelude::*;

use crate::controller::Transition;
use crate::controller::apply_transition;
use crate::controller::default_window_size;
use crate::controller::enter_mini_ops;
use crate::controller::enter_wallpaper_ops;
use crate::controller::exit_mini_ops;
use crate::controller::exit_wallpaper_ops;
use crate::controller::mini_size;
use crate::controller::normal_min_size;
use crate::controller::wallpaper_entry_spec;
use crate::errors::ModeError;
use crate::geometry::GeometryRect;
use crate::geometry::to_container_space;
use crate::monitors::MonitorDescriptor;
use crate::monitors::has_primary;
use crate::monitors::lemma_first_primary_is_primary;
use crate::monitors::monitors_on_screen;
use crate::monitors::resolve_monitor_spec;
use crate::state::ModeState;
use crate::window::InsertionPoint;
use crate::window::WindowModel;
use crate::window::WindowOp;
use crate::window::apply_ops_spec;
use crate::window::center_pos;

verus! {

/// What the docking plan does to any well-formed window: it ends
/// reparented into the insertion point, sized to the target, positioned at
/// the target origin expressed in the container's space — so its absolute
/// screen rectangle is exactly the target — stripped of decorations and
/// resizing, at the bottom of the z-order, with everything the plan does
/// not touch unchanged.
pub proof fn lemma_enter_wallpaper_effect(
    w: WindowModel,
    target: GeometryRect,
    ip: InsertionPoint,
    primary: GeometryRect,
)
    requires
        target.on_screen(),
        ip.origin.on_screen(),
    ensures
        ({
            let w2 = apply_ops_spec(w, enter_wallpaper_ops(target, ip), primary);
            &&& w2.parent == Some(ip)
            &&& w2.position == to_container_space(target.origin(), ip.origin)
            &&& w2.size == target.size()
            &&& w2.screen_x() == target.x
            &&& w2.screen_y() == target.y
            &&& !w2.decorations
            &&& !w2.resizable
            &&& w2.at_bottom
            &&& w2.always_on_top == w.always_on_top
            &&& w2.min_size == w.min_size
            &&& w2.max_size == w.max_size
            &&& w2.focused == w.focused
            &&& w2.rounded_corners == w.rounded_corners
        }),
{
    reveal_with_fuel(apply_ops_spec, 10);
}

/// What the wallpaper exit plan does to any window: it ends top-level with
/// the normal decoration, resizing and stacking attributes, at the default
/// windowed size, centered on the primary display, and focused; the size
/// bounds and corner rounding are untouched.
pub proof fn lemma_exit_wallpaper_effect(w: WindowModel, primary: GeometryRect)
    ensures
        ({
            let w2 = apply_ops_spec(w, exit_wallpaper_ops(), primary);
            &&& w2.parent is None
            &&& !w2.at_bottom
            &&& w2.decorations
            &&& w2.resizable
            &&& !w2.always_on_top
            &&& w2.normal_chrome()
            &&& w2.size == default_window_size()
            &&& w2.position == center_pos(primary, default_window_size())
            &&& w2.focused
            &&& w2.min_size == w.min_size
            &&& w2.max_size == w.max_size
            &&& w2.rounded_corners == w.rounded_corners
        }),
{
    reveal_with_fuel(apply_ops_spec, 10);
}

/// What the mini entry plan does to any window: undecorated, fixed to the
/// compact footprint, always on top, corners rounded — while the window's
/// parent, z-bottom placement, position and focus are untouched.
pub proof fn lemma_enter_mini_effect(w: WindowModel, primary: GeometryRect)
    ensures
        ({
            let w2 = apply_ops_spec(w, enter_mini_ops(), primary);
            &&& !w2.decorations
            &&& !w2.resizable
            &&& w2.always_on_top
            &&& w2.min_size == Some(mini_size())
            &&& w2.max_size == Some(mini_size())
            &&& w2.size == mini_size()
            &&& w2.rounded_corners
            &&& w2.parent == w.parent
            &&& w2.at_bottom == w.at_bottom
            &&& w2.position == w.position
            &&& w2.focused == w.focused
        }),
{
    reveal_with_fuel(apply_ops_spec, 10);
}

/// What the mini exit plan does to any window: normal chrome, the normal
/// minimum size restored and the maximum lifted, the default windowed size
/// restored, centered on the primary display — while the window's parent,
/// z-bottom placement and focus are untouched.
pub proof fn lemma_exit_mini_effect(w: WindowModel, primary: GeometryRect)
    ensures
        ({
            let w2 = apply_ops_spec(w, exit_mini_ops(), primary);
            &&& w2.decorations
            &&& w2.resizable
            &&& !w2.always_on_top
            &&& w2.normal_chrome()
            &&& w2.min_size == Some(normal_min_size())
            &&& w2.max_size is None
            &&& w2.size == default_window_size()
            &&& w2.position == center_pos(primary, default_window_size())
            &&& w2.parent == w.parent
            &&& w2.at_bottom == w.at_bottom
            &&& w2.focused == w.focused
        }),
{
    reveal_with_fuel(apply_ops_spec, 10);
}

/// Why the docking plan repositions after reparenting. Its first phase
/// sets the target position while the window is still top-level and then
/// reparents; at that point the stored position is reinterpreted against
/// the container, so the window's absolute rectangle is shifted by the
/// container's own screen origin. Only the second phase — the reposition
/// in container space — brings the absolute rectangle onto the target, as
/// [`lemma_enter_wallpaper_effect`] states for the full plan.
pub proof fn lemma_reparent_shifts_frame(
    w: WindowModel,
    target: GeometryRect,
    ip: InsertionPoint,
    primary: GeometryRect,
)
    requires
        target.on_screen(),
        ip.origin.on_screen(),
    ensures
        ({
            let mid = apply_ops_spec(w, enter_wallpaper_ops(target, ip).take(5), primary);
            &&& mid.parent == Some(ip)
            &&& mid.screen_x() == target.x + ip.origin.x
            &&& mid.screen_y() == target.y + ip.origin.y
        }),
{
    let full = enter_wallpaper_ops(target, ip);
    assert(full.take(5) =~= seq![
        WindowOp::SetDecorations(false),
        WindowOp::SetResizable(false),
        WindowOp::SetPosition(target.origin()),
        WindowOp::SetSize(target.size()),
        WindowOp::Reparent(ip),
    ]);
    reveal_with_fuel(apply_ops_spec, 7);
}

/// Whatever monitor a selector resolves to — an in-range ordinal picks the
/// descriptor at that position, an absent selector the primary fallback —
/// the wallpaper entry succeeds given an insertion point, and its plan
/// drives the window's absolute screen rectangle to exactly the selected
/// descriptor's rectangle, at the descriptor's origin minus the insertion
/// point's origin within the container.
pub proof fn law_wallpaper_targets_selected_monitor(
    w: WindowModel,
    ms: Seq<MonitorDescriptor>,
    selector: Option<usize>,
    i: int,
    ip: InsertionPoint,
    primary: GeometryRect,
)
    requires
        monitors_on_screen(ms),
        ip.origin.on_screen(),
        resolve_monitor_spec(ms, selector) == Ok::<int, ModeError>(i),
    ensures
        0 <= i < ms.len(),
        wallpaper_entry_spec(true, ms, selector, Some(ip)) == Ok::<Seq<WindowOp>, ModeError>(
            enter_wallpaper_ops(ms[i].rect(), ip),
        ),
        ({
            let w2 = apply_ops_spec(w, enter_wallpaper_ops(ms[i].rect(), ip), primary);
            &&& w2.screen_x() == ms[i].position.x
            &&& w2.screen_y() == ms[i].position.y
            &&& w2.size == ms[i].size
            &&& w2.position == to_container_space(ms[i].position, ip.origin)
        }),
{
    if selector is None {
        lemma_first_primary_is_primary(ms);
    }
    assert(ms[i].rect().origin() == ms[i].position);
    assert(ms[i].rect().size() == ms[i].size);
    lemma_enter_wallpaper_effect(w, ms[i].rect(), ip, primary);
}

/// An absent monitor selector always resolves to a descriptor flagged
/// primary — the first one in enumeration order.
pub proof fn law_default_selector_targets_primary(ms: Seq<MonitorDescriptor>)
    requires
        has_primary(ms),
    ensures
        resolve_monitor_spec(ms, None) matches Ok(i) && 0 <= i < ms.len() && ms[i].is_primary
            && (forall|j: int| 0 <= j < i ==> !(#[trigger] ms[j]).is_primary),
{
    lemma_first_primary_is_primary(ms);
}

/// A monitor ordinal at or beyond the enumerated count is rejected with
/// `InvalidMonitorIndex`, whatever the insertion point; and when no
/// descriptor is flagged primary, an absent selector is rejected with
/// `NoPrimaryMonitor`. Rejection happens before any plan exists, and the
/// preparing calls borrow the controller immutably, so no state mutation
/// accompanies either error.
pub proof fn law_bad_selector_rejected(
    ms: Seq<MonitorDescriptor>,
    i: usize,
    layer: Option<InsertionPoint>,
)
    ensures
        i >= ms.len() ==> wallpaper_entry_spec(true, ms, Some(i), layer) == Err::<
            Seq<WindowOp>,
            ModeError,
        >(ModeError::InvalidMonitorIndex),
        !has_primary(ms) ==> wallpaper_entry_spec(true, ms, None, layer) == Err::<
            Seq<WindowOp>,
            ModeError,
        >(ModeError::NoPrimaryMonitor),
{
}

/// Entering wallpaper mode and then exiting it returns the mode flags to
/// their pre-transition value, and returns the window's decorations,
/// resizability and always-on-top state to their normal-mode defaults,
/// top-level again.
pub proof fn law_wallpaper_roundtrip(
    s: ModeState,
    w: WindowModel,
    target: GeometryRect,
    ip: InsertionPoint,
    primary: GeometryRect,
)
    requires
        !s.wallpaper_docked,
        target.on_screen(),
        ip.origin.on_screen(),
    ensures
        apply_transition(apply_transition(s, Transition::EnterWallpaper), Transition::ExitWallpaper)
            == s,
        ({
            let w2 = apply_ops_spec(
                apply_ops_spec(w, enter_wallpaper_ops(target, ip), primary),
                exit_wallpaper_ops(),
                primary,
            );
            &&& w2.normal_chrome()
            &&& w2.parent is None
            &&& !w2.at_bottom
        }),
{
    lemma_enter_wallpaper_effect(w, target, ip, primary);
    lemma_exit_wallpaper_effect(
        apply_ops_spec(w, enter_wallpaper_ops(target, ip), primary),
        primary,
    );
}

/// The two mode axes are independent: a mini transition never changes the
/// wallpaper flag and a wallpaper transition never changes the mini flag.
pub proof fn law_axis_independence(s: ModeState, t: Transition)
    ensures
        t == Transition::EnterMini || t == Transition::ExitMini ==> apply_transition(
            s,
            t,
        ).wallpaper_docked == s.wallpaper_docked,
        t == Transition::EnterWallpaper || t == Transition::ExitWallpaper ==> apply_transition(
            s,
            t,
        ).mini_compact == s.mini_compact,
{
}

/// The independence holds of the window too: the mini plans leave the
/// window's parent — and with it the docked placement — untouched, and the
/// docking plan leaves the mini size bounds untouched.
pub proof fn law_mini_toggle_preserves_docking(
    w: WindowModel,
    target: GeometryRect,
    ip: InsertionPoint,
    primary: GeometryRect,
)
    requires
        target.on_screen(),
        ip.origin.on_screen(),
    ensures
        apply_ops_spec(w, enter_mini_ops(), primary).parent == w.parent,
        apply_ops_spec(w, exit_mini_ops(), primary).parent == w.parent,
        apply_ops_spec(w, enter_wallpaper_ops(target, ip), primary).min_size == w.min_size,
        apply_ops_spec(w, enter_wallpaper_ops(target, ip), primary).max_size == w.max_size,
{
    lemma_enter_mini_effect(w, primary);
    lemma_exit_mini_effect(w, primary);
    lemma_enter_wallpaper_effect(w, target, ip, primary);
}

} // verus!
