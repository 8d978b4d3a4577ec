//! Window identities, the attributes a window is created with, and the
//! capability contract of a native window.

use vstd::prelude::*;

verus! {

/// A native window created by a platform backend.
///
/// Backends implement it on their window type, together with whatever
/// raw-handle traits their consumers (a renderer) need to attach to it.
pub trait Window {}

/// The identity of a window within one window manager; never reused.
#[derive(Copy, Clone, Debug, Hash, PartialEq, Eq, Structural)]
pub struct WindowId(pub u32);

/// A resolution: physical (exact pixels) or logical (scaled by the DPI).
#[derive(Clone, Debug, PartialEq, Eq)]
pub enum Resolution<T> {
    /// Physical resolution, in pixels.
    Physical { width: T, height: T },
    /// Logical resolution, scaled by the DPI.
    Logical { width: T, height: T },
}

impl<T: Copy> Copy for Resolution<T> {}

/// Position of a window.
#[derive(Copy, Clone, Debug, Default, PartialEq, Eq, Structural)]
pub struct WindowPosition {
    pub x: i32,
    pub y: i32,
}

impl WindowPosition {
    /// The position at `(x, y)`.
    pub fn new(x: i32, y: i32) -> (r: WindowPosition)
        ensures
            r.x == x,
            r.y == y,
    {
        WindowPosition { x, y }
    }
}

/// The attributes that control how a window is created.
///
/// Not every backend honours every attribute; an unsupported one is
/// accepted and ignored, never an error.
pub struct WindowAttributes {
    /// Window title (`"Window"` when absent).
    pub title: Option<String>,
    /// Size of the window (platform default when absent).
    pub size: Option<Resolution<u32>>,
    /// Position of the window (platform default when absent).
    pub position: Option<WindowPosition>,
    /// Close button (default true).
    pub has_close_button: bool,
    /// Minimize button (default true).
    pub has_minimize_button: bool,
    /// Maximize button (default true).
    pub has_maximize_button: bool,
    /// Drop shadow (default false).
    pub show_drop_shadow: bool,
    /// Border (default true).
    pub show_border: bool,
    /// Title bar (default true).
    pub show_title_bar: bool,
    /// Initially disabled (default false).
    pub initially_disabled: bool,
    /// Dialog box (default false).
    pub is_dialog_box: bool,
    /// Initially minimized (default false).
    pub initially_minimized: bool,
    /// Resizable (default true).
    pub resizable: bool,
    /// System menu (default false).
    pub has_system_menu: bool,
    /// Initially visible (default true).
    pub initially_visible: bool,
}

impl WindowAttributes {
    /// Whether every attribute holds its stated default.
    pub open spec fn is_default(&self) -> bool {
        &&& self.title is None
        &&& self.size is None
        &&& self.position is None
        &&& self.has_close_button
        &&& self.has_minimize_button
        &&& self.has_maximize_button
        &&& !self.show_drop_shadow
        &&& self.show_border
        &&& self.show_title_bar
        &&& !self.initially_disabled
        &&& !self.is_dialog_box
        &&& !self.initially_minimized
        &&& self.resizable
        &&& !self.has_system_menu
        &&& self.initially_visible
    }
}

impl Default for WindowAttributes {
    fn default() -> (r: Self)
        ensures
            r.is_default(),
    {
        WindowAttributes {
            title: None,
            size: None,
            position: None,
            has_close_button: true,
            has_minimize_button: true,
            has_maximize_button: true,
            show_drop_shadow: false,
            show_border: true,
            show_title_bar: true,
            initially_disabled: false,
            is_dialog_box: false,
            initially_minimized: false,
            resizable: true,
            has_system_menu: false,
            initially_visible: true,
        }
    }
}

/// The title a window is created with: the requested one, else `"Window"`.
pub fn window_title(title: Option<String>) -> (r: String)
    ensures
        r@ == match title {
            Some(t) => t@,
            None => "Window"@,
        },
{
    match title {
        Some(t) => t,
        None => "Window".to_string(),
    }
}

/// Which window attributes a backend actually honours.
#[derive(Clone, Debug)]
pub struct SupportedWindowAttributes {
    pub title: bool,
    pub size: bool,
    pub position: bool,
    pub has_close_button: bool,
    pub has_minimize_button: bool,
    pub has_maximize_button: bool,
    pub show_drop_shadow: bool,
    pub show_border: bool,
    pub show_title_bar: bool,
    pub initially_disabled: bool,
    pub is_dialog_box: bool,
    pub initially_minimized: bool,
    pub resizable: bool,
    pub has_system_menu: bool,
    pub initially_visible: bool,
}

} // verus!
