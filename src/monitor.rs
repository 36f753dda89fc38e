use vstd::prelude::*;

use crate::config::AppConfig;

verus! {

/// A monitor's area on the virtual desktop, in physical pixels: its top-left
/// corner and its size.
#[derive(Clone, Copy, Debug, PartialEq, Eq, Structural)]
pub struct MonitorArea {
    pub x: i32,
    pub y: i32,
    pub width: u32,
    pub height: u32,
}

/// Where the pointer is, as the smallest box of whole pixels around it:
/// `left` and `top` are its coordinates rounded down, `right` and `bottom`
/// rounded up. A pointer on whole coordinates has `left == right` and
/// `top == bottom`.
#[derive(Clone, Copy, Debug, PartialEq, Eq, Structural)]
pub struct CursorBox {
    pub left: i64,
    pub top: i64,
    pub right: i64,
    pub bottom: i64,
}

/// Where and how large the window is put: the top-left corner and the size.
#[derive(Clone, Copy, Debug, PartialEq, Eq, Structural)]
pub struct WindowPlacement {
    pub x: i32,
    pub y: i32,
    pub width: u32,
    pub height: u32,
}

/// The pointer lies on the monitor, its edges included: every point of the
/// pointer's box is within `x ..= x + width` and `y ..= y + height`.
pub open spec fn contains(m: MonitorArea, c: CursorBox) -> bool {
    m.x <= c.left && c.right <= m.x + m.width && m.y <= c.top && c.bottom <= m.y + m.height
}

/// The index of the first monitor of `ms` that holds the pointer, if any.
pub open spec fn first_containing(ms: Seq<MonitorArea>, c: CursorBox) -> Option<int> {
    if exists|i: int| 0 <= i < ms.len() && contains(ms[i], c) {
        Some(
            choose|i: int|
                0 <= i < ms.len() && contains(ms[i], c) && forall|j: int|
                    0 <= j < i ==> !contains(#[trigger] ms[j], c),
        )
    } else {
        None
    }
}

/// Whether the monitor holds the pointer, edges included.
pub fn monitor_contains(m: &MonitorArea, c: &CursorBox) -> (r: bool)
    ensures
        r == contains(*m, *c),
{
    let right: i64 = m.x as i64 + m.width as i64;
    let bottom: i64 = m.y as i64 + m.height as i64;
    m.x as i64 <= c.left && c.right <= right && m.y as i64 <= c.top && c.bottom <= bottom
}

/// The position in `monitors` of the first monitor that holds the pointer;
/// `None` when none does.
pub fn monitor_under_cursor(monitors: &Vec<MonitorArea>, cursor: &CursorBox) -> (r: Option<
    usize,
>)
    ensures
        match r {
            Some(i) => i < monitors@.len() && contains(monitors@[i as int], *cursor) && forall|
                j: int,
            |
                0 <= j < i ==> !contains(#[trigger] monitors@[j], *cursor),
            None => forall|j: int|
                0 <= j < monitors@.len() ==> !contains(#[trigger] monitors@[j], *cursor),
        },
        r matches Some(i) ==> first_containing(monitors@, *cursor) == Some(i as int),
        r is None <==> first_containing(monitors@, *cursor) is None,
{
    let mut i: usize = 0;
    while i < monitors.len()
        invariant
            i <= monitors@.len(),
            forall|j: int| 0 <= j < i ==> !contains(#[trigger] monitors@[j], *cursor),
        decreases monitors@.len() - i,
    {
        if monitor_contains(&monitors[i], cursor) {
            proof {
                let ms = monitors@;
                let k = i as int;
                assert(0 <= k < ms.len() && contains(ms[k], *cursor));
                let w = first_containing(ms, *cursor).unwrap();
                assert(0 <= w < ms.len() && contains(ms[w], *cursor));
                if w < k {
                    assert(!contains(ms[w], *cursor));
                } else if w > k {
                    assert(!contains(ms[k], *cursor));
                }
            }
            return Some(i);
        }
        i = i + 1;
    }
    None
}

pub open spec fn target_monitor_spec(
    ms: Seq<MonitorArea>,
    cursor: Option<CursorBox>,
    primary: Option<MonitorArea>,
) -> Option<MonitorArea> {
    match cursor {
        Some(c) => match first_containing(ms, c) {
            Some(i) => Some(ms[i]),
            None => primary,
        },
        None => primary,
    }
}

/// The monitor that the window is shown on: the first of `monitors` that
/// holds the pointer, when the pointer's position is known (`Some`) and one
/// does; else the primary monitor, if there is one.
pub fn target_monitor(
    monitors: &Vec<MonitorArea>,
    cursor: Option<CursorBox>,
    primary: Option<MonitorArea>,
) -> (r: Option<MonitorArea>)
    ensures
        r == target_monitor_spec(monitors@, cursor, primary),
{
    match cursor {
        Some(c) => match monitor_under_cursor(monitors, &c) {
            Some(i) => Some(monitors[i]),
            None => primary,
        },
        None => primary,
    }
}

/// The window fills the monitor and its corner is shifted by the offsets.
pub open spec fn placed_on(m: MonitorArea, offset_x: int, offset_y: int) -> (int, int, nat, nat) {
    (m.x + offset_x, m.y + offset_y, m.width as nat, m.height as nat)
}

pub open spec fn fits_i32(v: int) -> bool {
    i32::MIN <= v <= i32::MAX
}

/// The window's placement on `monitor`: the monitor's size, at its corner
/// shifted by `offset_x` and `offset_y`. `None` when the shifted corner lies
/// outside the window system's 32-bit coordinates.
pub fn placement_on(monitor: &MonitorArea, offset_x: i32, offset_y: i32) -> (r: Option<
    WindowPlacement,
>)
    ensures
        match r {
            Some(p) => (p.x as int, p.y as int, p.width as nat, p.height as nat) == placed_on(
                *monitor,
                offset_x as int,
                offset_y as int,
            ),
            None => !fits_i32(monitor.x + offset_x) || !fits_i32(monitor.y + offset_y),
        },
        r is Some <==> fits_i32(monitor.x + offset_x) && fits_i32(monitor.y + offset_y),
{
    let x = monitor.x.checked_add(offset_x);
    let y = monitor.y.checked_add(offset_y);
    match (x, y) {
        (Some(x), Some(y)) => Some(
            WindowPlacement { x, y, width: monitor.width, height: monitor.height },
        ),
        _ => None,
    }
}

/// What showing the window does before it shows it: the monitor chosen as
/// `target_monitor` chooses, and the window's placement on it with the
/// configured offsets. `None` (the window stays where it is) when no monitor
/// is found or the shifted corner does not fit in 32 bits.
pub fn plan_show(
    monitors: &Vec<MonitorArea>,
    cursor: Option<CursorBox>,
    primary: Option<MonitorArea>,
    config: &AppConfig,
) -> (r: Option<(MonitorArea, WindowPlacement)>)
    ensures
        match r {
            Some((m, p)) => Some(m) == target_monitor_spec(monitors@, cursor, primary) && (
            p.x as int, p.y as int, p.width as nat, p.height as nat) == placed_on(
                m,
                config.offset_x as int,
                config.offset_y as int,
            ),
            None => match target_monitor_spec(monitors@, cursor, primary) {
                Some(m) => !fits_i32(m.x + config.offset_x) || !fits_i32(m.y + config.offset_y),
                None => true,
            },
        },
{
    match target_monitor(monitors, cursor, primary) {
        Some(m) => match placement_on(&m, config.offset_x, config.offset_y) {
            Some(p) => Some((m, p)),
            None => None,
        },
        None => None,
    }
}

} // verus!
