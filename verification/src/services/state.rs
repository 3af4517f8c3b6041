//! Errors of the running application.
use vstd::prelude::*;
use crate::services::registry::RegistryLoadError;

verus! {

broadcast use vstd::string::group_string_axioms;

/// Why the application could not go on.
#[derive(Debug)]
pub enum AppError {
    Module(RegistryLoadError),
    Internal { message: String },
}

impl AppError {
    /// The message of the error, as it is displayed.
    pub fn to_string(&self) -> (res: String)
        ensures
            res@ == match self {
                AppError::Module(e) => "Module error: "@ + e.message_spec(),
                AppError::Internal { message } => "Internal error: "@ + message@,
            },
    {
        match self {
            AppError::Module(e) => {
                let mut m = "Module error: ".to_owned();
                let inner = e.to_string();
                m.append(inner.as_str());
                m
            },
            AppError::Internal { message } => {
                let mut m = "Internal error: ".to_owned();
                m.append(message.as_str());
                m
            },
        }
    }
}

impl From<RegistryLoadError> for AppError {
    fn from(e: RegistryLoadError) -> (res: Self) {
        AppError::Module(e)
    }
}

impl vstd::std_specs::convert::FromSpecImpl<RegistryLoadError> for AppError {
    open spec fn obeys_from_spec() -> bool {
        true
    }

    open spec fn from_spec(v: RegistryLoadError) -> Self {
        AppError::Module(v)
    }
}

} // verus!
