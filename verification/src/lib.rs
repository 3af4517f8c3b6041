//! Core logic of a Hyprland status bar: configuration values and the rules
//! that expand and merge them, colour strings, the window-manager state
//! machines and the parser for Hyprland's event socket, the tray's decisions,
//! and the bookkeeping of outputs, frames and modules.
pub mod adapters;
pub mod application;
pub mod config;
pub mod frontend;
pub mod services;
pub mod domain;
pub mod text;
