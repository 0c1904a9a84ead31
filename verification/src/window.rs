//! The window model: the observable attributes of the one controlled
//! top-level window, and the operations the controller issues against it.
//!
//! The controller never touches the window system itself; it emits a plan,
//! a sequence of [`WindowOp`]s, that the host carries out call by call.
//! [`apply_op`] and [`apply_plan`] give those operations their meaning on a
//! [`WindowModel`], so that what a plan does to the window is itself
//! verified, and so that a host or a test can replay a plan on the model.

use vstd::prelude::*;

use crate::geometry::COORD_LIMIT;
use crate::geometry::Dim;
use crate::geometry::GeometryRect;
use crate::geometry::POS_LIMIT;
use crate::geometry::Point;
use crate::locator::WindowHandle;

verus! {

/// The desktop background container resolved for one wallpaper-mode entry:
/// its handle, and where its client area starts in virtual-screen
/// coordinates. Valid only until the desktop shell is restarted or
/// reconfigured; it must be re-resolved on every entry into wallpaper mode
/// and never cached across calls.
#[derive(Clone, Copy, PartialEq, Eq, Structural, Debug)]
pub struct InsertionPoint {
    pub handle: WindowHandle,
    pub origin: Point,
}

/// One window-system call the host performs on the controlled window.
#[derive(Clone, Copy, PartialEq, Eq, Structural, Debug)]
pub enum WindowOp {
    /// Show or strip the border, resize frame and system-menu decorations.
    SetDecorations(bool),
    /// Allow or forbid interactive resizing.
    SetResizable(bool),
    /// Keep the window above all normal windows, or stop doing so.
    SetAlwaysOnTop(bool),
    /// Constrain the smallest size the window may take, or lift the bound.
    SetMinSize(Option<Dim>),
    /// Constrain the largest size the window may take, or lift the bound.
    SetMaxSize(Option<Dim>),
    /// Resize the window.
    SetSize(Dim),
    /// Move the window. The window system interprets the point relative to
    /// the window's parent at the moment the call is issued (the virtual
    /// screen when the window is top-level).
    SetPosition(Point),
    /// Reparent the window into the desktop background container. The
    /// stored position is kept but reinterpreted in the new parent's space.
    Reparent(InsertionPoint),
    /// Restore the window to top-level, leaving the background layer.
    Detach,
    /// Push the window to the bottom of the z-order.
    PlaceAtBottom,
    /// Center the window on the primary display.
    Center,
    /// Give the window input focus.
    FocusWindow,
    /// Ask the host to round the window's corners; cosmetic and
    /// best-effort, a failure is ignored.
    RoundCorners,
}

/// The modelled attributes of the controlled window.
#[derive(Clone, Copy, PartialEq, Eq, Structural, Debug)]
pub struct WindowModel {
    /// Position relative to the current parent's client area; equal to the
    /// screen position while the window is top-level.
    pub position: Point,
    pub size: Dim,
    /// The background container the window is reparented into, if any.
    pub parent: Option<InsertionPoint>,
    pub decorations: bool,
    pub resizable: bool,
    pub always_on_top: bool,
    pub at_bottom: bool,
    pub min_size: Option<Dim>,
    pub max_size: Option<Dim>,
    pub focused: bool,
    pub rounded_corners: bool,
}

impl WindowModel {
    /// Screen coordinates of the current parent's client area origin.
    pub open spec fn parent_origin(self) -> Point {
        match self.parent {
            Some(ip) => ip.origin,
            None => Point { x: 0, y: 0 },
        }
    }

    /// The window's absolute horizontal screen position.
    pub open spec fn screen_x(self) -> int {
        self.parent_origin().x + self.position.x
    }

    /// The window's absolute vertical screen position.
    pub open spec fn screen_y(self) -> int {
        self.parent_origin().y + self.position.y
    }

    /// The position is in the model's range and any parent origin is a
    /// screen coordinate.
    pub open spec fn wf(self) -> bool {
        &&& self.position.in_model_range()
        &&& (self.parent matches Some(ip) ==> ip.origin.on_screen())
    }

    /// The decoration, resizing and stacking attributes of an ordinary
    /// windowed presentation.
    pub open spec fn normal_chrome(self) -> bool {
        self.decorations && self.resizable && !self.always_on_top
    }
}

/// Every coordinate an operation carries is in range for the model.
pub open spec fn op_wf(op: WindowOp) -> bool {
    match op {
        WindowOp::SetPosition(p) => p.in_model_range(),
        WindowOp::Reparent(ip) => ip.origin.on_screen(),
        _ => true,
    }
}

/// The position at which a window of size `size` sits centered on the
/// display rectangle `primary`.
pub open spec fn center_pos(primary: GeometryRect, size: Dim) -> Point {
    Point {
        x: (primary.x + primary.width / 2 - size.width / 2) as i64,
        y: (primary.y + primary.height / 2 - size.height / 2) as i64,
    }
}

/// What one operation does to the modelled window. `primary` is the
/// rectangle of the primary display, which only `Center` consults.
pub open spec fn apply_op_spec(w: WindowModel, op: WindowOp, primary: GeometryRect) -> WindowModel {
    match op {
        WindowOp::SetDecorations(b) => WindowModel { decorations: b, ..w },
        WindowOp::SetResizable(b) => WindowModel { resizable: b, ..w },
        WindowOp::SetAlwaysOnTop(b) => WindowModel { always_on_top: b, ..w },
        WindowOp::SetMinSize(d) => WindowModel { min_size: d, ..w },
        WindowOp::SetMaxSize(d) => WindowModel { max_size: d, ..w },
        WindowOp::SetSize(d) => WindowModel { size: d, ..w },
        WindowOp::SetPosition(p) => WindowModel { position: p, ..w },
        WindowOp::Reparent(ip) => WindowModel { parent: Some(ip), ..w },
        WindowOp::Detach => WindowModel { parent: None, at_bottom: false, ..w },
        WindowOp::PlaceAtBottom => WindowModel { at_bottom: true, ..w },
        WindowOp::Center => WindowModel { position: center_pos(primary, w.size), ..w },
        WindowOp::FocusWindow => WindowModel { focused: true, ..w },
        WindowOp::RoundCorners => WindowModel { rounded_corners: true, ..w },
    }
}

/// What a whole plan does: the operations applied in order, front first.
pub open spec fn apply_ops_spec(w: WindowModel, ops: Seq<WindowOp>, primary: GeometryRect) -> WindowModel
    decreases ops.len(),
{
    if ops.len() == 0 {
        w
    } else {
        apply_ops_spec(apply_op_spec(w, ops[0], primary), ops.skip(1), primary)
    }
}

/// Applying a concatenated plan equals applying its halves in order.
pub proof fn lemma_apply_ops_concat(
    w: WindowModel,
    s1: Seq<WindowOp>,
    s2: Seq<WindowOp>,
    primary: GeometryRect,
)
    ensures
        apply_ops_spec(w, s1 + s2, primary) == apply_ops_spec(
            apply_ops_spec(w, s1, primary),
            s2,
            primary,
        ),
    decreases s1.len(),
{
    if s1.len() == 0 {
        assert(s1 + s2 =~= s2);
    } else {
        assert((s1 + s2)[0] == s1[0]);
        assert((s1 + s2).skip(1) =~= s1.skip(1) + s2);
        lemma_apply_ops_concat(apply_op_spec(w, s1[0], primary), s1.skip(1), s2, primary);
    }
}

/// Performs one operation on the modelled window.
pub fn apply_op(w: &mut WindowModel, op: &WindowOp, primary: &GeometryRect)
    requires
        old(w).wf(),
        primary.on_screen(),
        op_wf(*op),
    ensures
        *final(w) == apply_op_spec(*old(w), *op, *primary),
        final(w).wf(),
{
    match op {
        WindowOp::SetDecorations(b) => {
            w.decorations = *b;
        },
        WindowOp::SetResizable(b) => {
            w.resizable = *b;
        },
        WindowOp::SetAlwaysOnTop(b) => {
            w.always_on_top = *b;
        },
        WindowOp::SetMinSize(d) => {
            w.min_size = *d;
        },
        WindowOp::SetMaxSize(d) => {
            w.max_size = *d;
        },
        WindowOp::SetSize(d) => {
            w.size = *d;
        },
        WindowOp::SetPosition(p) => {
            w.position = *p;
        },
        WindowOp::Reparent(ip) => {
            w.parent = Some(*ip);
        },
        WindowOp::Detach => {
            w.parent = None;
            w.at_bottom = false;
        },
        WindowOp::PlaceAtBottom => {
            w.at_bottom = true;
        },
        WindowOp::Center => {
            let x = primary.x + (primary.width / 2) as i64 - (w.size.width / 2) as i64;
            let y = primary.y + (primary.height / 2) as i64 - (w.size.height / 2) as i64;
            w.position = Point { x, y };
        },
        WindowOp::FocusWindow => {
            w.focused = true;
        },
        WindowOp::RoundCorners => {
            w.rounded_corners = true;
        },
    }
}

/// Performs a plan on the modelled window, front to back, as the host does
/// against the real window.
pub fn apply_plan(w: &mut WindowModel, ops: &Vec<WindowOp>, primary: &GeometryRect)
    requires
        old(w).wf(),
        primary.on_screen(),
        forall|i: int| 0 <= i < ops@.len() ==> op_wf(#[trigger] ops@[i]),
    ensures
        *final(w) == apply_ops_spec(*old(w), ops@, *primary),
        final(w).wf(),
{
    let ghost w0 = *w;
    let n = ops.len();
    let mut i: usize = 0;
    while i < n
        invariant
            i <= n,
            n == ops@.len(),
            primary.on_screen(),
            forall|k: int| 0 <= k < ops@.len() ==> op_wf(#[trigger] ops@[k]),
            w.wf(),
            *w == apply_ops_spec(w0, ops@.take(i as int), *primary),
        decreases n - i,
    {
        proof {
            let pre = apply_ops_spec(w0, ops@.take(i as int), *primary);
            let single = seq![ops@[i as int]];
            assert(ops@.take(i as int + 1) =~= ops@.take(i as int) + single);
            lemma_apply_ops_concat(w0, ops@.take(i as int), single, *primary);
            let stepped = apply_op_spec(pre, ops@[i as int], *primary);
            assert(single.skip(1) =~= Seq::<WindowOp>::empty());
            assert(apply_ops_spec(stepped, Seq::<WindowOp>::empty(), *primary) == stepped);
            assert(apply_ops_spec(pre, single, *primary) == stepped);
        }
        apply_op(w, &ops[i], primary);
        i = i + 1;
    }
    assert(ops@.take(n as int) =~= ops@);
}

} // verus!
