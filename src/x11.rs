//! Decisions of the X11 backend on plain values taken from native events.

use vstd::prelude::*;

use crate::window::{Resolution, WindowPosition};

verus! {

/// Whether a client message is the window manager asking to close a
/// window: a `WM_PROTOCOLS` message in 32-bit format whose first datum is
/// the `WM_DELETE_WINDOW` atom.
pub fn is_delete_window_request(
    message_type: u64,
    format: i32,
    first_datum: i64,
    wm_protocols: u64,
    wm_delete_window: u64,
) -> (r: bool)
    ensures
        r == (message_type == wm_protocols && format == 32 && first_datum == wm_delete_window as i64),
{
    message_type == wm_protocols && format == 32 && first_datum == wm_delete_window as i64
}

/// Position and size of a new X11 window.
#[derive(Copy, Clone, Debug, PartialEq, Eq, Structural)]
pub struct Geometry {
    pub x: i32,
    pub y: i32,
    pub width: u32,
    pub height: u32,
}

/// Where a new X11 window goes and how large it is: the requested position,
/// else the origin; the requested size, physical or logical alike, else
/// 800 by 600.
pub fn initial_geometry(position: Option<WindowPosition>, size: Option<Resolution<u32>>) -> (r: Geometry)
    ensures
        match position {
            Some(p) => r.x == p.x && r.y == p.y,
            None => r.x == 0 && r.y == 0,
        },
        match size {
            Some(Resolution::Physical { width, height }) => r.width == width && r.height == height,
            Some(Resolution::Logical { width, height }) => r.width == width && r.height == height,
            None => r.width == 800 && r.height == 600,
        },
{
    let (x, y) = match position {
        Some(p) => (p.x, p.y),
        None => (0, 0),
    };
    let (width, height) = match size {
        Some(Resolution::Physical { width, height }) => (width, height),
        Some(Resolution::Logical { width, height }) => (width, height),
        None => (800, 600),
    };
    Geometry { x, y, width, height }
}

} // verus!
