pub mod config;
pub mod hyprland;
pub mod layout_diff;
pub mod sni;
pub mod wayland;
pub mod zbus;
