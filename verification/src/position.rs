//! Where a new window is put on the desktop, in physical pixels.

use crate::monitor::MonitorSelection;
use vstd::prelude::*;

verus! {

/// Where a window is to be put.
#[derive(Clone, Copy, Debug, PartialEq, Eq, Structural)]
pub enum WindowPosition {
    /// The window manager places the window.
    Automatic,
    /// The window is centred on the selected monitor.
    Centered(MonitorSelection),
    /// The top-left corner of the window is at these physical pixels.
    At(i32, i32),
}

/// The part of the desktop that a monitor shows: the place of its top-left
/// corner and its size, in physical pixels.
#[derive(Clone, Copy, Debug, PartialEq, Eq, Structural)]
pub struct MonitorFrame {
    pub x: i32,
    pub y: i32,
    pub width: u32,
    pub height: u32,
}

/// A top-left corner of a window on the desktop, in physical pixels.
#[derive(Clone, Copy, Debug, PartialEq, Eq, Structural)]
pub struct PhysicalPosition {
    pub x: i32,
    pub y: i32,
}

/// Half of `twice`, where a half pixel goes away from zero.
pub open spec fn half_rounded(twice: int) -> int {
    if twice >= 0 {
        (twice + 1) / 2
    } else {
        -((1 - twice) / 2)
    }
}

/// `value`, or the nearest number that an `i32` holds.
pub open spec fn clamped(value: int) -> int {
    if value < i32::MIN {
        i32::MIN as int
    } else if value > i32::MAX {
        i32::MAX as int
    } else {
        value
    }
}

/// The coordinate that centres a window of length `window` on a monitor that
/// starts at `origin` and is `screen` long: the origin plus half of the room
/// that the window leaves, which is none where the window is the longer one.
/// Half a pixel is rounded away from zero, and the result stays within `i32`.
pub open spec fn centered_coordinate(origin: i32, screen: u32, window: u32) -> int {
    let room: int = if screen > window {
        screen - window
    } else {
        0
    };
    clamped(half_rounded(2 * origin + room))
}

/// The position of a window on the desktop: none where the window manager
/// decides or where no monitor is there to centre on.
pub open spec fn window_position(
    position: WindowPosition,
    monitor: Option<MonitorFrame>,
    width: u32,
    height: u32,
) -> Option<PhysicalPosition> {
    match position {
        WindowPosition::Automatic => None,
        WindowPosition::Centered(_) => match monitor {
            Some(frame) => Some(
                PhysicalPosition {
                    x: centered_coordinate(frame.x, frame.width, width) as i32,
                    y: centered_coordinate(frame.y, frame.height, height) as i32,
                },
            ),
            None => None,
        },
        WindowPosition::At(x, y) => Some(PhysicalPosition { x, y }),
    }
}

/// Centres a length of `window` pixels on a monitor that starts at `origin`
/// and is `screen` pixels long.
pub fn center(origin: i32, screen: u32, window: u32) -> (coordinate: i32)
    ensures
        coordinate == centered_coordinate(origin, screen, window),
{
    let room: u32 = if screen > window {
        screen - window
    } else {
        0
    };
    let half: i64 = (room / 2) as i64;
    let odd: bool = room % 2 == 1;
    let whole: i64 = origin as i64 + half;
    let rounded: i64 = if odd && whole >= 0 {
        whole + 1
    } else {
        whole
    };
    if rounded > i32::MAX as i64 {
        i32::MAX
    } else {
        rounded as i32
    }
}

/// Computes the physical position of a window for a given `WindowPosition`.
///
/// `monitor` is the frame of the monitor that the position selects, where it
/// selects one; `width` and `height` are the size of the window in physical
/// pixels.
pub fn winit_window_position(
    position: &WindowPosition,
    monitor: Option<&MonitorFrame>,
    width: u32,
    height: u32,
) -> (placed: Option<PhysicalPosition>)
    ensures
        placed == window_position(
            *position,
            match monitor {
                Some(frame) => Some(*frame),
                None => None,
            },
            width,
            height,
        ),
{
    match position {
        WindowPosition::Automatic => None,
        WindowPosition::Centered(_) => match monitor {
            Some(frame) => Some(
                PhysicalPosition {
                    x: center(frame.x, frame.width, width),
                    y: center(frame.y, frame.height, height),
                },
            ),
            None => None,
        },
        WindowPosition::At(x, y) => Some(PhysicalPosition { x: *x, y: *y }),
    }
}

/// A window that is at least as long as the monitor starts where the monitor
/// starts.
pub proof fn lemma_center_of_long_window(origin: i32, screen: u32, window: u32)
    requires
        window >= screen,
    ensures
        centered_coordinate(origin, screen, window) == origin,
{
}

/// A window that fits on a monitor is centred on it: it lies within the
/// monitor, and the room before it and the room after it differ by at most
/// one pixel. The monitor's far edge must be a coordinate that `i32` holds.
pub proof fn lemma_center_leaves_equal_room(origin: i32, screen: u32, window: u32)
    requires
        window <= screen,
        origin + screen <= i32::MAX,
    ensures
        ({
            let start = centered_coordinate(origin, screen, window);
            let before = start - origin;
            let after = (origin + screen) - (start + window);
            &&& 0 <= before
            &&& 0 <= after
            &&& -1 <= before - after <= 1
        }),
{
}

} // verus!
