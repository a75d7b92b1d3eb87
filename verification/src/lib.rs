//! Window background effects and version reporting for the Moodle Desktop shell.
//!
//! The desktop shell exposes two commands to its front-end: one reports the
//! application version, the other switches the background treatment of a
//! window between Mica, Acrylic and none. This crate holds the rules behind
//! both commands; the shell around it owns the event loop and the windows.

pub mod commands;
pub mod effect;
pub mod error;
pub mod laws;
pub mod platform;
pub mod text;

pub use commands::{
    apply_effect, apply_startup_effect, compositor_requests, get_app_version, set_window_effect,
    WindowEffectApplier, APP_VERSION,
};
pub use effect::{
    parse_effect, startup_effect, CompositorRequest, WindowEffect, ACRYLIC_TINT, MICA_DARK,
};
pub use error::EffectError;
pub use platform::Window;
