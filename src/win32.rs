//! Computations of the Windows backend on plain values: the system theme
//! from the foreground colour, colour references, window class styles and
//! the quit message.

use vstd::prelude::*;

verus! {

/// `CS_VREDRAW`: redraw the whole window when its height changes.
pub const CS_VREDRAW: u32 = 0x0001;

/// `CS_HREDRAW`: redraw the whole window when its width changes.
pub const CS_HREDRAW: u32 = 0x0002;

/// `CS_NOCLOSE`: disable Close on the window menu.
pub const CS_NOCLOSE: u32 = 0x0200;

/// `CS_DROPSHADOW`: give the window a drop shadow.
pub const CS_DROPSHADOW: u32 = 0x0002_0000;

/// `WM_QUIT`: the message that ends a message loop.
pub const WM_QUIT: u32 = 0x0012;

/// A colour as its red, green and blue channels.
#[derive(Copy, Clone, Debug, PartialEq, Eq, Structural)]
pub struct Rgb {
    pub r: u8,
    pub g: u8,
    pub b: u8,
}

/// A colour is light when its weighted brightness `5g + 2r + b` exceeds
/// `8 * 128`.
pub open spec fn light(c: Rgb) -> bool {
    5 * c.g + 2 * c.r + c.b > 8 * 128
}

/// Whether `color` is light.
pub fn is_color_light(color: Rgb) -> (r: bool)
    ensures
        r == light(color),
{
    (5 * color.g as u32) + (2 * color.r as u32) + color.b as u32 > 8 * 128
}

/// The system is in dark mode when its foreground (text) colour is light;
/// when the colour could not be read, the theme is undetermined (`None`).
pub fn is_dark_mode_internal(foreground: Option<Rgb>) -> (r: Option<bool>)
    ensures
        r == match foreground {
            Some(c) => Some(light(c)),
            None => None::<bool>,
        },
{
    match foreground {
        Some(c) => Some(is_color_light(c)),
        None => None,
    }
}

/// Whether a message taken from the queue asks the application to quit,
/// which the event pump records as `ExitSuccess`.
pub fn is_quit_message(message: u32) -> (r: bool)
    ensures
        r == (message == WM_QUIT),
{
    message == WM_QUIT
}

/// The `COLORREF` value of a colour: `0x00bbggrr`.
pub fn make_colorref(r: u8, g: u8, b: u8) -> (c: u32)
    ensures
        c == b as nat * 65536 + g as nat * 256 + r as nat,
{
    let (r32, g32, b32) = (r as u32, g as u32, b as u32);
    proof {
        assert(((b32 << 16u32) | (g32 << 8u32)) | r32 == b32 * 65536 + g32 * 256 + r32) by (bit_vector)
            requires
                r32 < 256,
                g32 < 256,
                b32 < 256,
        ;
    }
    ((b32 << 16) | (g32 << 8)) | r32
}

/// The attributes that decide which window class a window needs.
#[derive(Copy, Clone, Debug, Hash, PartialEq, Eq, Structural)]
pub struct WindowClassAttributes {
    pub allow_close: bool,
    pub show_drop_shadow: bool,
}

impl WindowClassAttributes {
    /// The class style: always redrawn on resize; `CS_NOCLOSE` when closing
    /// is not allowed; `CS_DROPSHADOW` when a drop shadow is shown.
    pub fn style(&self) -> (r: u32)
        ensures
            r == ((CS_HREDRAW | CS_VREDRAW) | (if self.allow_close { 0 } else { CS_NOCLOSE })) | (
            if self.show_drop_shadow {
                CS_DROPSHADOW
            } else {
                0
            }),
    {
        let mut style: u32 = CS_HREDRAW | CS_VREDRAW;
        let no_close: u32 = if self.allow_close { 0 } else { CS_NOCLOSE };
        style = style | no_close;
        let shadow: u32 = if self.show_drop_shadow { CS_DROPSHADOW } else { 0 };
        style | shadow
    }
}

} // verus!
