//! The monitor geometry resolver: turns the host's display enumeration
//! into descriptors, and resolves a monitor selector to one of them.
//!
//! Descriptors are snapshots, not live references: they go stale if
//! displays are reconfigured after the enumeration. An explicit ordinal
//! indexes the enumeration order at call time; indices are not stable
//! across calls, which is accepted because enumeration and use happen
//! within one synchronous transition.

use vstd::prelude::*;

use crate::errors::ModeError;
use crate::geometry::Dim;
use crate::geometry::GeometryRect;
use crate::geometry::Point;

verus! {

/// One display as the host's enumeration reports it, before the primary
/// flag is computed: name, absolute virtual-screen position, pixel size,
/// and the device scale factor in thousandths.
///
/// The scale factor is informational only — the resolver hands out physical
/// pixel values and never applies scaling itself — and is carried as a
/// fixed-point value in thousandths so that the descriptor stays within
/// plain integer data.
#[derive(Clone, Debug)]
pub struct MonitorInfo {
    pub name: String,
    pub position: Point,
    pub size: Dim,
    pub scale_permille: u32,
}

/// A snapshot of one display: enumeration data plus the primary flag.
#[derive(Clone, Debug)]
pub struct MonitorDescriptor {
    pub name: String,
    pub position: Point,
    pub size: Dim,
    pub scale_permille: u32,
    pub is_primary: bool,
}

impl MonitorDescriptor {
    /// The display's absolute pixel rectangle in virtual-screen
    /// coordinates.
    pub open spec fn rect(self) -> GeometryRect {
        GeometryRect {
            x: self.position.x,
            y: self.position.y,
            width: self.size.width,
            height: self.size.height,
        }
    }

    /// The descriptor's position is a virtual-screen coordinate.
    pub open spec fn on_screen(self) -> bool {
        self.position.on_screen()
    }
}

/// Every descriptor in the enumeration lies on the virtual screen.
pub open spec fn monitors_on_screen(ms: Seq<MonitorDescriptor>) -> bool {
    forall|i: int| 0 <= i < ms.len() ==> (#[trigger] ms[i]).on_screen()
}

/// `d` is `info` with the primary flag computed by name-equality against
/// the resolved primary descriptor's name.
pub open spec fn descriptor_of(d: MonitorDescriptor, info: MonitorInfo, primary_name: Option<String>) -> bool {
    &&& d.name@ == info.name@
    &&& d.position == info.position
    &&& d.size == info.size
    &&& d.scale_permille == info.scale_permille
    &&& d.is_primary == (primary_name matches Some(p) && p@ == info.name@)
}

/// Builds the descriptor list from the host's enumeration, in enumeration
/// order, flagging as primary every display whose name equals the resolved
/// primary display's name.
pub fn list_monitors(found: &Vec<MonitorInfo>, primary_name: &Option<String>) -> (r: Vec<
    MonitorDescriptor,
>)
    ensures
        r@.len() == found@.len(),
        forall|i: int|
            0 <= i < found@.len() ==> descriptor_of(#[trigger] r@[i], found@[i], *primary_name),
{
    let mut r: Vec<MonitorDescriptor> = Vec::new();
    let n = found.len();
    let mut i: usize = 0;
    while i < n
        invariant
            i <= n,
            n == found@.len(),
            r@.len() == i,
            forall|k: int| 0 <= k < i ==> descriptor_of(#[trigger] r@[k], found@[k], *primary_name),
        decreases n - i,
    {
        let info = &found[i];
        let is_primary = match primary_name {
            Some(p) => *p == info.name,
            None => false,
        };
        r.push(
            MonitorDescriptor {
                name: info.name.clone(),
                position: info.position,
                size: info.size,
                scale_permille: info.scale_permille,
                is_primary,
            },
        );
        i = i + 1;
    }
    r
}

/// The position of the first descriptor flagged primary. Meaningful only
/// when one exists.
pub open spec fn first_primary(ms: Seq<MonitorDescriptor>) -> int
    decreases ms.len(),
{
    if ms.len() == 0 {
        0
    } else if ms[0].is_primary {
        0
    } else {
        1 + first_primary(ms.skip(1))
    }
}

/// Some enumerated descriptor carries the primary flag.
pub open spec fn has_primary(ms: Seq<MonitorDescriptor>) -> bool {
    exists|i: int| 0 <= i < ms.len() && (#[trigger] ms[i]).is_primary
}

/// When a primary descriptor exists, `first_primary` points at a primary
/// descriptor inside the enumeration, and no earlier descriptor is
/// primary.
pub proof fn lemma_first_primary_is_primary(ms: Seq<MonitorDescriptor>)
    requires
        has_primary(ms),
    ensures
        0 <= first_primary(ms) < ms.len(),
        ms[first_primary(ms)].is_primary,
        forall|j: int| 0 <= j < first_primary(ms) ==> !(#[trigger] ms[j]).is_primary,
    decreases ms.len(),
{
    let w = choose|i: int| 0 <= i < ms.len() && (#[trigger] ms[i]).is_primary;
    if ms[0].is_primary {
    } else {
        assert(ms.skip(1)[w - 1] == ms[w]);
        lemma_first_primary_is_primary(ms.skip(1));
        let f = first_primary(ms.skip(1));
        assert(ms[1 + f] == ms.skip(1)[f]);
        assert forall|j: int| 0 <= j < first_primary(ms) implies !(#[trigger] ms[j]).is_primary by {
            if j > 0 {
                assert(ms[j] == ms.skip(1)[j - 1]);
            }
        }
    }
}

/// A primary descriptor at `i` with none before it is the one
/// `first_primary` picks.
pub proof fn lemma_first_primary_at(ms: Seq<MonitorDescriptor>, i: int)
    requires
        0 <= i < ms.len(),
        ms[i].is_primary,
        forall|j: int| 0 <= j < i ==> !(#[trigger] ms[j]).is_primary,
    ensures
        first_primary(ms) == i,
    decreases i,
{
    if i == 0 {
    } else {
        assert(!ms[0].is_primary);
        assert(ms.skip(1)[i - 1] == ms[i]);
        assert forall|j: int| 0 <= j < i - 1 implies !(#[trigger] ms.skip(1)[j]).is_primary by {
            assert(ms.skip(1)[j] == ms[j + 1]);
        }
        lemma_first_primary_at(ms.skip(1), i - 1);
    }
}

/// Which descriptor a monitor selector picks: an explicit ordinal indexes
/// the enumeration order and is rejected when out of range; an absent
/// selector falls back to the first descriptor flagged primary and is
/// rejected when none is flagged.
pub open spec fn resolve_monitor_spec(ms: Seq<MonitorDescriptor>, selector: Option<usize>) -> Result<
    int,
    ModeError,
> {
    match selector {
        Some(i) => if i < ms.len() {
            Ok(i as int)
        } else {
            Err(ModeError::InvalidMonitorIndex)
        },
        None => if has_primary(ms) {
            Ok(first_primary(ms))
        } else {
            Err(ModeError::NoPrimaryMonitor)
        },
    }
}

/// Resolves a monitor selector against the enumerated descriptors,
/// returning the position of the selected descriptor.
pub fn resolve_monitor(ms: &Vec<MonitorDescriptor>, selector: Option<usize>) -> (r: Result<
    usize,
    ModeError,
>)
    ensures
        r matches Ok(i) ==> resolve_monitor_spec(ms@, selector) == Ok::<int, ModeError>(i as int)
            && i < ms@.len(),
        r matches Err(e) ==> resolve_monitor_spec(ms@, selector) == Err::<int, ModeError>(e),
{
    if selector.is_some() {
        let i = selector.unwrap();
        if i < ms.len() {
            Ok(i)
        } else {
            Err(ModeError::InvalidMonitorIndex)
        }
    } else {
        let n = ms.len();
        let mut k: usize = 0;
        while k < n
            invariant
                k <= n,
                n == ms@.len(),
                selector is None,
                forall|j: int| 0 <= j < k ==> !(#[trigger] ms@[j]).is_primary,
            decreases n - k,
        {
            if ms[k].is_primary {
                proof {
                    assert(has_primary(ms@));
                    lemma_first_primary_at(ms@, k as int);
                }
                return Ok(k);
            }
            k = k + 1;
        }
        Err(ModeError::NoPrimaryMonitor)
    }
}

} // verus!
