//! The decisions behind the UP-TAKE overlay.

pub mod area;
pub mod bitmap;
pub mod clipboard;
pub mod geometry;
pub mod gesture;
pub mod json;
pub mod menu;
pub mod mouse;
pub mod output;
pub mod overlay;
pub mod overlay_state;
pub mod overlay_wndproc;
pub mod payload_keys;
pub mod placement;
pub mod poll;
pub mod precapture;
pub mod search;
pub mod settings;
pub mod settings_window;
pub mod strings;
pub mod text;
pub mod tray;
pub mod wire;
