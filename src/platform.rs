//! The capability contract that every platform backend meets, and the
//! collaborators a backend may notify while it pumps native events.

use std::sync::Arc;
use vstd::prelude::*;

use crate::exit::ExitManager;
use crate::manager::WindowManager;
use crate::window::{SupportedWindowAttributes, Window, WindowAttributes, WindowId};

verus! {

/// Name of the Windows backend.
pub const WINDOWS: &'static str = "windows";

/// Name of the Linux X11 backend.
pub const LINUX_X11: &'static str = "linux-x11";

/// Name of the Linux Wayland backend.
pub const LINUX_WAYLAND: &'static str = "linux-wayland";

/// Name of the headless Windows backend.
pub const WINDOWS_HEADLESS: &'static str = "windows-headless";

/// Name of the headless Linux backend.
pub const LINUX_HEADLESS: &'static str = "linux-headless";

/// Identifies a backend. A non-standard backend must use `Custom`.
#[derive(Copy, Clone, Hash, PartialEq, Eq, Debug)]
pub enum PlatformKind {
    Windows,
    WindowsHeadless,
    LinuxX11,
    LinuxWayland,
    LinuxHeadless,
    Custom(&'static str),
}

/// The two collaborators a backend may notify from its event pump.
#[verifier::reject_recursive_types(W)]
pub struct OsLoopInputs<W> {
    pub window_manager: WindowManager<W>,
    pub exit_manager: ExitManager,
}

/// What a platform backend offers: identification, window creation and a
/// non-blocking pump of native events.
pub trait Platform {
    /// The native window type this backend creates.
    type NativeWindow: Window;

    /// The backend's name (see the constants of this module).
    fn name(&self) -> &'static str;

    /// The backend's kind.
    fn kind(&self) -> PlatformKind;

    /// Whether the backend cannot create on-screen surfaces.
    fn is_headless(&self) -> bool;

    /// The system theme: `None` when it cannot be determined.
    fn is_dark_mode(&self) -> Option<bool>;

    /// Which window attributes this backend honours.
    fn supported_window_attributes(&self) -> &'static SupportedWindowAttributes;

    /// Creates a live, fully constructed native window, or fails.
    fn create_window(
        &self,
        window_attributes: WindowAttributes,
        window_id: WindowId,
    ) -> Result<Arc<Self::NativeWindow>, anyhow::Error>;

    /// Drains the native events queued now, without waiting for more, and
    /// passes close and quit notifications on to `inputs`. A backend
    /// reaches the window manager only through its public operations, so
    /// the manager stays well formed and its id counter never goes back.
    fn process_events(&self, inputs: &mut OsLoopInputs<Self::NativeWindow>)
        requires
            old(inputs).window_manager.wf(),
        ensures
            final(inputs).window_manager.wf(),
            final(inputs).window_manager.next_id() >= old(inputs).window_manager.next_id(),
    ;
}

} // verus!
