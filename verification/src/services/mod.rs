pub mod builtins;
pub mod commands;
pub mod registry;
pub mod state;
pub mod supervisor;
