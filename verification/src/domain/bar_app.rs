//! The application's errors and the placement of a module on the bar.
use vstd::prelude::*;
use crate::domain::ModuleId;
use crate::domain::shared::geometry::{Rect, RectView};

verus! {

broadcast use vstd::string::group_string_axioms;

/// Why the application could not go on.
#[derive(Debug)]
pub enum AppError {
    Module(String),
    Internal { message: String },
}

impl AppError {
    /// The message of the error, as it is displayed.
    pub fn to_string(&self) -> (res: String)
        ensures
            res@ == match self {
                AppError::Module(s) => "Module error: "@ + s@,
                AppError::Internal { message } => "Internal error: "@ + message@,
            },
    {
        let (prefix, s) = match self {
            AppError::Module(s) => ("Module error: ", s),
            AppError::Internal { message } => ("Internal error: ", message),
        };
        let mut m = prefix.to_owned();
        m.append(s.as_str());
        m
    }
}

/// Where a module is drawn on the bar.
#[derive(Debug, Clone, Copy, PartialEq, Eq)]
pub struct ModuleLayout {
    id: ModuleId,
    bounds: Rect,
}

impl ModuleLayout {
    pub closed spec fn spec_id(&self) -> u32 {
        self.id.value()
    }

    pub closed spec fn spec_bounds(&self) -> RectView {
        self.bounds@
    }

    pub fn new(id: ModuleId, bounds: Rect) -> (res: Self)
        ensures
            res.spec_id() == id.value(),
            res.spec_bounds() == bounds@,
    {
        ModuleLayout { id, bounds }
    }

    pub fn id(&self) -> (res: ModuleId)
        ensures
            res.value() == self.spec_id(),
    {
        self.id
    }

    pub fn bounds(&self) -> (res: &Rect)
        ensures
            res@ == self.spec_bounds(),
    {
        &self.bounds
    }
}

} // verus!
