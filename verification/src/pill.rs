//! The floating pill window: where it docks and when the cursor is over it.

use crate::platform::Platform;
use vstd::prelude::*;

verus! {

/// Pixels around the window that count as over it.
pub const HIT_SLOP: i32 = 12;

/// Pixels between the docked window and the bottom of the monitor.
pub const MARGIN_BOTTOM: i32 = 28;

/// Cursor positions closer in time than this many milliseconds are dropped.
pub const THROTTLE_MS: u64 = 50;

/// The cursor is over the window, grown by the slop on every side. The left
/// and top edges count, the right and bottom ones do not.
pub open spec fn is_over(cx: int, cy: int, win_x: int, win_y: int, width: int, height: int) -> bool {
    &&& win_x - HIT_SLOP <= cx < win_x + width + HIT_SLOP
    &&& win_y - HIT_SLOP <= cy < win_y + height + HIT_SLOP
}

/// Horizontal position of a window of `width` centred on a monitor.
pub open spec fn docked_x(mon_x: int, mon_w: int, width: int) -> int {
    mon_x + crate::resample::truncating_div(mon_w - width, 2)
}

/// Vertical position of a window of `height` above the bottom margin of a
/// monitor.
pub open spec fn docked_y(mon_y: int, mon_h: int, height: int) -> int {
    mon_y + mon_h - height - MARGIN_BOTTOM
}

/// The top-left corner of the window: what the system reports, but on macOS,
/// which reports the origin while another application has the focus, the
/// docked position stands in for a report of the origin or none; without
/// either it is the origin.
pub open spec fn window_origin(
    platform: Platform,
    reported: Option<(i32, i32)>,
    docked: Option<(i32, i32)>,
) -> (i32, i32) {
    if platform == Platform::MacOs {
        match reported {
            Some(p) => if p != (0i32, 0i32) {
                p
            } else {
                match docked {
                    Some(d) => d,
                    None => (0i32, 0i32),
                }
            },
            None => match docked {
                Some(d) => d,
                None => (0i32, 0i32),
            },
        }
    } else {
        match reported {
            Some(p) => p,
            None => (0i32, 0i32),
        }
    }
}

/// The cursor in coordinates whose origin is the top left: macOS counts the
/// vertical position of the cursor from the bottom of the primary monitor.
pub open spec fn top_left_cursor(
    platform: Platform,
    monitor_height: Option<i32>,
    cx: i32,
    cy: i32,
) -> (int, int) {
    match monitor_height {
        Some(h) => if platform == Platform::MacOs {
            (cx as int, h - cy)
        } else {
            (cx as int, cy as int)
        },
        None => (cx as int, cy as int),
    }
}

/// Whether a cursor position is passed on, given the time of the last one
/// that was: only after the throttle interval.
pub open spec fn is_due(now_ns: u64, last_sent_ns: u64) -> bool {
    now_ns - last_sent_ns >= THROTTLE_MS * 1_000_000
}

/// Whether the cursor at `(cx, cy)` is over the window with top-left corner
/// `(win_x, win_y)` and the given size.
pub fn is_cursor_over_pill_window_at(
    cx: i64,
    cy: i64,
    win_x: i32,
    win_y: i32,
    width: i32,
    height: i32,
) -> (over: bool)
    ensures
        over == is_over(cx as int, cy as int, win_x as int, win_y as int, width as int, height as int),
{
    let slop: i64 = HIT_SLOP as i64;
    let x: i64 = win_x as i64 - slop;
    let y: i64 = win_y as i64 - slop;
    let w: i64 = width as i64 + 2 * slop;
    let h: i64 = height as i64 + 2 * slop;
    cx >= x && cx < x + w && cy >= y && cy < y + h
}

/// The docked position of a window on a monitor: centred, above the bottom
/// margin. The position must fit in 32 bits.
pub fn dock_position(mon_x: i32, mon_y: i32, mon_w: i32, mon_h: i32, width: i32, height: i32) -> (p:
    (i32, i32))
    requires
        i32::MIN <= docked_x(mon_x as int, mon_w as int, width as int) <= i32::MAX,
        i32::MIN <= docked_y(mon_y as int, mon_h as int, height as int) <= i32::MAX,
    ensures
        p.0 == docked_x(mon_x as int, mon_w as int, width as int),
        p.1 == docked_y(mon_y as int, mon_h as int, height as int),
{
    let x: i64 = mon_x as i64 + (mon_w as i64 - width as i64) / 2;
    let y: i64 = mon_y as i64 + mon_h as i64 - height as i64 - MARGIN_BOTTOM as i64;
    (x as i32, y as i32)
}

/// The docked position of a window on a monitor, or `None` where it does
/// not fit in 32 bits.
pub fn checked_dock_position(
    mon_x: i32,
    mon_y: i32,
    mon_w: i32,
    mon_h: i32,
    width: i32,
    height: i32,
) -> (p: Option<(i32, i32)>)
    ensures
        match p {
            Some(q) => q.0 == docked_x(mon_x as int, mon_w as int, width as int) && q.1 == docked_y(
                mon_y as int,
                mon_h as int,
                height as int,
            ),
            None => !(i32::MIN <= docked_x(mon_x as int, mon_w as int, width as int) <= i32::MAX)
                || !(i32::MIN <= docked_y(mon_y as int, mon_h as int, height as int) <= i32::MAX),
        },
{
    let x: i64 = mon_x as i64 + (mon_w as i64 - width as i64) / 2;
    let y: i64 = mon_y as i64 + mon_h as i64 - height as i64 - MARGIN_BOTTOM as i64;
    if x < i32::MIN as i64 || x > i32::MAX as i64 || y < i32::MIN as i64 || y > i32::MAX as i64 {
        None
    } else {
        Some(dock_position(mon_x, mon_y, mon_w, mon_h, width, height))
    }
}

/// The top-left corner of the window.
pub fn pill_window_rect_top_left(
    platform: Platform,
    reported: Option<(i32, i32)>,
    docked: Option<(i32, i32)>,
) -> (p: (i32, i32))
    ensures
        p == window_origin(platform, reported, docked),
{
    let mac: bool = match platform {
        Platform::MacOs => true,
        _ => false,
    };
    let fallback: (i32, i32) = if mac {
        match docked {
            Some(d) => d,
            None => (0, 0),
        }
    } else {
        (0, 0)
    };
    match reported {
        Some(p) => {
            if mac && p.0 == 0 && p.1 == 0 {
                fallback
            } else {
                p
            }
        },
        None => fallback,
    }
}

/// The cursor in coordinates whose origin is the top left, as wide
/// integers.
pub fn cursor_to_top_left(platform: Platform, monitor_height: Option<i32>, cx: i32, cy: i32) -> (p:
    (i64, i64))
    ensures
        (p.0 as int, p.1 as int) == top_left_cursor(platform, monitor_height, cx, cy),
{
    let mac: bool = match platform {
        Platform::MacOs => true,
        _ => false,
    };
    match monitor_height {
        Some(h) => {
            if mac {
                (cx as i64, h as i64 - cy as i64)
            } else {
                (cx as i64, cy as i64)
            }
        },
        None => (cx as i64, cy as i64),
    }
}

/// Whether a cursor position at `now_ns` is passed on when the last one
/// that was is from `last_sent_ns`. A clock that went back passes nothing.
pub fn should_forward(now_ns: u64, last_sent_ns: u64) -> (due: bool)
    ensures
        due == is_due(now_ns, last_sent_ns),
{
    if now_ns < last_sent_ns {
        false
    } else {
        now_ns - last_sent_ns >= THROTTLE_MS * 1_000_000
    }
}

/// Whether the cursor was over the window at the last look.
pub struct HoverState {
    over: bool,
}

impl HoverState {
    /// Whether the cursor was over the window at the last look.
    pub closed spec fn over(self) -> bool {
        self.over
    }

    /// The cursor has not been seen over the window.
    pub fn new() -> (s: Self)
        ensures
            !s.over(),
    {
        HoverState { over: false }
    }

    /// Takes a look and gives the new state where it changed.
    pub fn update(&mut self, over: bool) -> (changed: Option<bool>)
        ensures
            final(self).over() == over,
            changed == if over != old(self).over() {
                Some(over)
            } else {
                None::<bool>
            },
    {
        if over != self.over {
            self.over = over;
            Some(over)
        } else {
            None
        }
    }
}

} // verus!
