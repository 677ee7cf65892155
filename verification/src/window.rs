//! Where the launcher window goes: the monitor under the cursor when it covers
//! a monitor, a centred window otherwise.
use vstd::prelude::*;

verus! {

/// A monitor's area in physical pixels: its top-left corner and its size.
#[derive(Clone, Copy, Debug, PartialEq, Eq)]
pub struct MonitorRect {
    pub x: i32,
    pub y: i32,
    pub width: u32,
    pub height: u32,
}

/// The point `(cx, cy)` lies on the monitor `m` (left and top edges included, right and
/// bottom edges excluded).
pub open spec fn on_monitor(m: MonitorRect, cx: int, cy: int) -> bool {
    m.x <= cx < m.x + m.width && m.y <= cy < m.y + m.height
}

/// The index of the first monitor that holds `(cx, cy)`, if any.
pub open spec fn first_monitor_at(monitors: Seq<MonitorRect>, cx: int, cy: int) -> Option<int> {
    if exists|i: int| 0 <= i < monitors.len() && on_monitor(#[trigger] monitors[i], cx, cy) {
        Some(
            choose|i: int|
                0 <= i < monitors.len() && on_monitor(monitors[i], cx, cy) && forall|j: int|
                    0 <= j < i ==> !on_monitor(#[trigger] monitors[j], cx, cy),
        )
    } else {
        None
    }
}

/// Whether the monitor `m` holds the point `(cx, cy)`.
pub fn monitor_holds(m: &MonitorRect, cx: i32, cy: i32) -> (b: bool)
    ensures
        b == on_monitor(*m, cx as int, cy as int),
{
    let x = m.x as i64;
    let y = m.y as i64;
    let px = cx as i64;
    let py = cy as i64;
    x <= px && px < x + (m.width as i64) && y <= py && py < y + (m.height as i64)
}

/// The first monitor, in the order given, that holds the point `(cx, cy)`.
pub fn monitor_for_point(cx: i32, cy: i32, monitors: &Vec<MonitorRect>) -> (r: Option<usize>)
    ensures
        r matches Some(i) ==> i < monitors@.len() && on_monitor(monitors@[i as int], cx as int, cy as int)
            && forall|j: int| 0 <= j < i ==> !on_monitor(#[trigger] monitors@[j], cx as int, cy as int),
        r is None ==> forall|j: int|
            0 <= j < monitors@.len() ==> !on_monitor(#[trigger] monitors@[j], cx as int, cy as int),
        r matches Some(i) ==> first_monitor_at(monitors@, cx as int, cy as int) == Some(i as int),
        r is None ==> first_monitor_at(monitors@, cx as int, cy as int) is None,
{
    let mut i: usize = 0;
    while i < monitors.len()
        invariant
            i <= monitors@.len(),
            forall|j: int| 0 <= j < i ==> !on_monitor(#[trigger] monitors@[j], cx as int, cy as int),
        decreases monitors.len() - i,
    {
        if monitor_holds(&monitors[i], cx, cy) {
            proof {
                let k = choose|k: int|
                    0 <= k < monitors@.len() && on_monitor(monitors@[k], cx as int, cy as int)
                        && forall|j: int| 0 <= j < k ==> !on_monitor(#[trigger] monitors@[j], cx as int, cy as int);
                assert(0 <= i < monitors@.len() && on_monitor(monitors@[i as int], cx as int, cy as int)
                    && forall|j: int| 0 <= j < i ==> !on_monitor(#[trigger] monitors@[j], cx as int, cy as int));
                if k < i {
                } else if k > i {
                    assert(!on_monitor(monitors@[i as int], cx as int, cy as int));
                }
            }
            return Some(i);
        }
        i = i + 1;
    }
    None
}

/// Where the window goes when it is shown.
#[derive(Clone, Copy, Debug, PartialEq, Eq)]
pub enum Placement {
    /// Cover the monitor with this index (fake full screen).
    CoverMonitor(usize),
    /// A window of this logical size, centred.
    Centered { width: u32, height: u32 },
}

/// The placement rule: with the full-size preference and a cursor position, the window covers
/// the first monitor under the cursor; in every other case it is a centred 1400 x 900 window.
pub open spec fn placement_model(
    fullsize: bool,
    cursor: Option<(i32, i32)>,
    monitors: Seq<MonitorRect>,
) -> Placement {
    let windowed = Placement::Centered { width: 1400, height: 900 };
    if !fullsize {
        windowed
    } else {
        match cursor {
            None => windowed,
            Some(c) => match first_monitor_at(monitors, c.0 as int, c.1 as int) {
                Some(i) => Placement::CoverMonitor(i as usize),
                None => windowed,
            },
        }
    }
}

/// Chooses where the window goes, given the full-size preference, the cursor position (if it
/// could be read) and the monitors.
pub fn window_placement(fullsize: bool, cursor: Option<(i32, i32)>, monitors: &Vec<MonitorRect>) -> (p:
    Placement)
    ensures
        p == placement_model(fullsize, cursor, monitors@),
{
    let windowed = Placement::Centered { width: 1400, height: 900 };
    if !fullsize {
        return windowed;
    }
    match cursor {
        None => windowed,
        Some((cx, cy)) => match monitor_for_point(cx, cy, monitors) {
            Some(i) => Placement::CoverMonitor(i),
            None => windowed,
        },
    }
}

/// The extended window style with `flag` added, or `None` when the style already shares a
/// bit with `flag` (for a one-bit flag: it is already set, and nothing is to change).
pub fn with_style_flag(style: isize, flag: isize) -> (r: Option<isize>)
    ensures
        r == (if style & flag == 0 {
            Some(style | flag)
        } else {
            None::<isize>
        }),
{
    if style & flag == 0 {
        Some(style | flag)
    } else {
        None
    }
}

/// Some monitor holds the point `(cx, cy)`.
pub open spec fn some_monitor_holds(monitors: Seq<MonitorRect>, cx: int, cy: int) -> bool {
    exists|i: int| 0 <= i < monitors.len() && on_monitor(#[trigger] monitors[i], cx, cy)
}

proof fn lemma_first_holding_monitor(monitors: Seq<MonitorRect>, cx: int, cy: int, n: int)
    requires
        0 <= n <= monitors.len(),
        exists|i: int| 0 <= i < n && on_monitor(#[trigger] monitors[i], cx, cy),
    ensures
        (exists|i: int|
            0 <= i < monitors.len() && on_monitor(monitors[i], cx, cy) && forall|j: int|
                0 <= j < i ==> !on_monitor(#[trigger] monitors[j], cx, cy)),
    decreases n,
{
    if exists|i: int| 0 <= i < n - 1 && on_monitor(#[trigger] monitors[i], cx, cy) {
        lemma_first_holding_monitor(monitors, cx, cy, n - 1);
    } else {
        let k = n - 1;
        assert(on_monitor(monitors[k], cx, cy));
        assert forall|j: int| 0 <= j < k implies !on_monitor(#[trigger] monitors[j], cx, cy) by {
            if on_monitor(monitors[j], cx, cy) {
                assert(0 <= j < n - 1);
            }
        }
    }
}

/// With the full-size preference on and the cursor at `(cx, cy)` on some monitor, the window
/// covers a monitor that holds the cursor, namely the first such monitor in the order given.
/// In every other case (preference off, cursor on no monitor, or cursor position unknown) it
/// is a centred 1400 x 900 window.
pub proof fn law_fullsize_covers_monitor_under_cursor(
    fullsize: bool,
    cx: i32,
    cy: i32,
    monitors: Seq<MonitorRect>,
)
    requires
        monitors.len() <= usize::MAX,
    ensures
        (fullsize && some_monitor_holds(monitors, cx as int, cy as int)) ==> (placement_model(
            fullsize,
            Some((cx, cy)),
            monitors,
        ) is CoverMonitor),
        (fullsize && some_monitor_holds(monitors, cx as int, cy as int)) ==> ({
            let j = placement_model(fullsize, Some((cx, cy)), monitors)->CoverMonitor_0 as int;
            &&& 0 <= j < monitors.len()
            &&& on_monitor(monitors[j], cx as int, cy as int)
            &&& forall|k: int| 0 <= k < j ==> !on_monitor(#[trigger] monitors[k], cx as int, cy as int)
        }),
        !(fullsize && some_monitor_holds(monitors, cx as int, cy as int)) ==> (placement_model(
            fullsize,
            Some((cx, cy)),
            monitors,
        ) == (Placement::Centered { width: 1400, height: 900 })),
        placement_model(fullsize, None, monitors) == (Placement::Centered { width: 1400, height: 900 }),
{
    if some_monitor_holds(monitors, cx as int, cy as int) {
        lemma_first_holding_monitor(monitors, cx as int, cy as int, monitors.len() as int);
    }
}

} // verus!
