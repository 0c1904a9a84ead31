//! The desktop layer locator: a stateless query that finds the shell's
//! background-hosting container among the children of the desktop root.
//!
//! The desktop shell keeps two sibling containers of one worker window
//! class under its root: one hosts the icon view, and the next sibling of
//! the same class hosts background content. The background container is
//! defined as the next same-class sibling *after* the icon-view host, not
//! the host itself. The host application snapshots the children of the
//! desktop root in order (after asking the shell to create the container on
//! demand and waiting out its bounded acknowledgment window); this module
//! decides which child, if any, is the insertion point. A `None` answer is
//! a normal, expected outcome on shells with a changed layout, and the
//! result must be re-resolved on every wallpaper-mode entry, never cached.

use vstd::prelude::*;

verus! {

/// An opaque, platform-assigned identifier of one top-level window. The
/// library only ever references such a window; its lifetime belongs to the
/// host windowing system.
#[derive(Clone, Copy, PartialEq, Eq, Structural, Debug)]
pub struct WindowHandle {
    pub raw: u64,
}

/// One child of the desktop root, as snapshotted by the host: its handle,
/// whether it is of the shell's worker window class, and whether it has a
/// child of the icon-view class.
#[derive(Clone, Copy, PartialEq, Eq, Structural, Debug)]
pub struct ShellChild {
    pub handle: WindowHandle,
    pub worker_class: bool,
    pub hosts_icon_view: bool,
}

/// The handle of the first worker-class window in `children`, if any.
pub open spec fn next_worker_handle(children: Seq<ShellChild>) -> Option<WindowHandle>
    decreases children.len(),
{
    if children.len() == 0 {
        None
    } else if children[0].worker_class {
        Some(children[0].handle)
    } else {
        next_worker_handle(children.skip(1))
    }
}

/// The background container among `children`: the first worker-class child
/// after the first worker-class child that hosts the icon view. `None` when
/// no such host exists or no worker-class sibling follows it.
pub open spec fn background_container(children: Seq<ShellChild>) -> Option<WindowHandle>
    decreases children.len(),
{
    if children.len() == 0 {
        None
    } else if children[0].worker_class && children[0].hosts_icon_view {
        next_worker_handle(children.skip(1))
    } else {
        background_container(children.skip(1))
    }
}

/// Walks the snapshotted children of the desktop root in order and returns
/// the handle of the background container, or `None` when the shell's
/// layout does not expose one.
pub fn find_background_container(children: &Vec<ShellChild>) -> (r: Option<WindowHandle>)
    ensures
        r == background_container(children@),
{
    let n = children.len();
    let mut i: usize = 0;
    assert(children@.skip(0) =~= children@);
    while i < n
        invariant
            i <= n,
            n == children@.len(),
            background_container(children@) == background_container(children@.skip(i as int)),
        decreases n - i,
    {
        let c = children[i];
        assert(children@.skip(i as int)[0] == c);
        if c.worker_class && c.hosts_icon_view {
            assert(children@.skip(i as int).skip(1) =~= children@.skip(i as int + 1));
            let mut j: usize = i + 1;
            while j < n
                invariant
                    i < j <= n,
                    n == children@.len(),
                    background_container(children@) == next_worker_handle(
                        children@.skip(j as int),
                    ),
                decreases n - j,
            {
                let s = children[j];
                assert(children@.skip(j as int)[0] == s);
                if s.worker_class {
                    return Some(s.handle);
                }
                assert(children@.skip(j as int).skip(1) =~= children@.skip(j as int + 1));
                j = j + 1;
            }
            assert(children@.skip(n as int) =~= Seq::<ShellChild>::empty());
            return None;
        }
        assert(children@.skip(i as int).skip(1) =~= children@.skip(i as int + 1));
        i = i + 1;
    }
    assert(children@.skip(n as int) =~= Seq::<ShellChild>::empty());
    None
}

} // verus!
