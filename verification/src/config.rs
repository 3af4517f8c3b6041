//! The older, flat form of the configuration still read by the Wayland
//! front end: how often to redraw, alignment and margins.
use vstd::prelude::*;

verus! {

/// How often the bar redraws.
#[derive(Debug, Clone, Copy, PartialEq, Eq, Structural)]
pub enum RenderingMode {
    Immediate { fps_limit: Option<u32> },
    Timebased { duration_ms: u64 },
}

impl Default for RenderingMode {
    /// Redraw every 100 ms.
    fn default() -> (res: Self)
        ensures
            res == (RenderingMode::Timebased { duration_ms: 100 }),
    {
        RenderingMode::Timebased { duration_ms: 100 }
    }
}

impl RenderingMode {
    /// The frame-rate cap of immediate mode; `None` in timed mode.
    pub fn fps_limit(&self) -> (res: Option<u32>)
        ensures
            res == match *self {
                RenderingMode::Immediate { fps_limit } => fps_limit,
                RenderingMode::Timebased { .. } => None,
            },
    {
        match self {
            RenderingMode::Immediate { fps_limit } => *fps_limit,
            RenderingMode::Timebased { .. } => None,
        }
    }

    /// The period of timed mode; `None` in immediate mode.
    pub fn duration_ms(&self) -> (res: Option<u64>)
        ensures
            res == match *self {
                RenderingMode::Immediate { .. } => None,
                RenderingMode::Timebased { duration_ms } => Some(duration_ms),
            },
    {
        match self {
            RenderingMode::Immediate { .. } => None,
            RenderingMode::Timebased { duration_ms } => Some(*duration_ms),
        }
    }
}

/// Where the bar's content sits vertically.
#[derive(Debug, Clone, Copy, PartialEq, Eq, Structural)]
pub enum VerticalAlignment {
    Top,
    Center,
    Bottom,
}

impl Default for VerticalAlignment {
    fn default() -> (res: Self)
        ensures
            res == VerticalAlignment::Center,
    {
        VerticalAlignment::Center
    }
}

/// Margins of which only some sides are set.
#[derive(Debug, Clone, Copy, PartialEq, Eq, Structural)]
pub struct PartialMarginConfig {
    pub top: Option<i32>,
    pub bottom: Option<i32>,
    pub left: Option<i32>,
    pub right: Option<i32>,
}

impl Default for PartialMarginConfig {
    /// No side set.
    fn default() -> (res: Self)
        ensures
            res == (PartialMarginConfig { top: None, bottom: None, left: None, right: None }),
    {
        PartialMarginConfig { top: None, bottom: None, left: None, right: None }
    }
}

/// Margins on the four sides of the bar (zero where left out).
#[derive(Debug, Clone, Copy, PartialEq, Eq, Structural)]
pub struct MarginConfig {
    top: i32,
    bottom: i32,
    left: i32,
    right: i32,
}

impl View for MarginConfig {
    type V = (i32, i32, i32, i32);

    closed spec fn view(&self) -> (i32, i32, i32, i32) {
        (self.top, self.bottom, self.left, self.right)
    }
}

impl MarginConfig {
    pub fn new(top: i32, bottom: i32, left: i32, right: i32) -> (res: Self)
        ensures
            res@ == (top, bottom, left, right),
    {
        MarginConfig { top, bottom, left, right }
    }

    pub fn top(&self) -> (res: i32)
        ensures
            res == self@.0,
    {
        self.top
    }

    pub fn bottom(&self) -> (res: i32)
        ensures
            res == self@.1,
    {
        self.bottom
    }

    pub fn left(&self) -> (res: i32)
        ensures
            res == self@.2,
    {
        self.left
    }

    pub fn right(&self) -> (res: i32)
        ensures
            res == self@.3,
    {
        self.right
    }

    /// These margins with the sides that `p` sets replaced.
    pub fn overridden(&self, p: &PartialMarginConfig) -> (res: Self)
        ensures
            res@ == (
                match p.top {
                    Some(v) => v,
                    None => self@.0,
                },
                match p.bottom {
                    Some(v) => v,
                    None => self@.1,
                },
                match p.left {
                    Some(v) => v,
                    None => self@.2,
                },
                match p.right {
                    Some(v) => v,
                    None => self@.3,
                },
            ),
    {
        MarginConfig {
            top: match p.top {
                Some(v) => v,
                None => self.top,
            },
            bottom: match p.bottom {
                Some(v) => v,
                None => self.bottom,
            },
            left: match p.left {
                Some(v) => v,
                None => self.left,
            },
            right: match p.right {
                Some(v) => v,
                None => self.right,
            },
        }
    }
}

impl Default for MarginConfig {
    fn default() -> (res: Self)
        ensures
            res@ == (0i32, 0i32, 0i32, 0i32),
    {
        MarginConfig { top: 0, bottom: 0, left: 0, right: 0 }
    }
}

} // verus!
