pub mod hyprland;
