//! Window lifecycle management and native event dispatch for a windowing engine.

pub mod engine;
pub mod exit;
pub mod manager;
pub mod platform;
pub mod win32;
pub mod window;
pub mod x11;

pub use engine::Engine;
pub use exit::{ExitManager, ExitState};
pub use manager::{CreateWindowError, WindowManager};
pub use platform::{OsLoopInputs, Platform, PlatformKind};
pub use window::{
    Resolution, SupportedWindowAttributes, Window, WindowAttributes, WindowId, WindowPosition,
};
