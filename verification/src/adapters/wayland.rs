//! What the renderer hands the Wayland side: a module's new frame.
use vstd::prelude::*;
use crate::domain::{ModuleId, MonitorId};
use crate::domain::shared::render::RenderBuffer;

verus! {

/// A frame of one module for one output.
pub struct SurfaceCommand {
    pub module_id: ModuleId,
    pub monitor_id: MonitorId,
    pub buffer: RenderBuffer,
}

} // verus!
