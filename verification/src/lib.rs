//! Verified core of the vooox dictation tool.
pub mod calendar;
pub mod config;
pub mod controller;
pub mod devices;
pub mod gpu;
pub mod history;
pub mod inject;
pub mod install;
pub mod keyed;
pub mod models;
pub mod number;
pub mod panel;
pub mod paths;
pub mod setup;
pub mod setup_view;
pub mod settings_view;
pub mod shortcuts;
pub mod sidecar;
pub mod text;
pub mod whisper;
pub mod tray;
pub mod window_state;
pub mod x11;
