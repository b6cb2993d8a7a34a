//! Window bookkeeping for a `winit` backend: a registry that pairs window
//! entities with native window identifiers, and the choices made when a window
//! is created (monitor, video mode, position, cursor grab).

pub mod cursor;
pub mod id_map;
pub mod monitor;
pub mod position;
pub mod video_mode;
pub mod windows;

pub use crate::cursor::{
    attempt_grab, cursor_setup, grab_description, CursorGrabMode, CursorOptions, CursorRequest,
};
pub use crate::monitor::{
    select_monitor, select_monitor_for_mode, MonitorSelection, WindowMode, WinitMonitors,
};
pub use crate::position::{
    center, winit_window_position, MonitorFrame, PhysicalPosition, WindowPosition,
};
pub use crate::video_mode::{get_best_videomode, get_fitting_videomode, Preference, VideoMode};
pub use crate::windows::{WindowsModel, WinitWindows};
