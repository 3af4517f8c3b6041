//! Commands that modules and the tray send to the application loop.
use vstd::prelude::*;
use crate::domain::{ModuleId, MonitorId};
use crate::domain::applets::AppletId;
use crate::domain::shared::geometry::{Position, Size};

verus! {

/// A request handed to the application loop.
#[derive(Debug, Clone, PartialEq)]
pub enum AppCommand {
    /// Draw the bars again.
    RequestRender,
    /// Run a shell command line.
    Exec(String),
    /// Forward a click (or another action) to a tray applet.
    AppletAction { id: AppletId, action: String, pos: Option<Position> },
    /// A module on a monitor now measures `Size`.
    ModuleSizeChanged(MonitorId, ModuleId, Size),
    /// Show a tooltip with the given text.
    ShowTooltip { text: String },
    /// Hide the tooltip.
    HideTooltip,
}

} // verus!
