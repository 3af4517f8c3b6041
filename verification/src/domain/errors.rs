//! Errors of the domain and of the ports it talks through.
use vstd::prelude::*;
use crate::domain::color::ColorError;
use crate::text::{append_decimal, decimal};

verus! {

broadcast use vstd::string::group_string_axioms;

/// An error of the domain logic.
#[derive(Debug)]
pub enum DomainError {
    ConfigParseError { reason: String },
    ModuleNotFound { module_name: String },
    Internal { message: String },
    ScriptError { module_name: String, message: String },
    Color(ColorError),
}

impl DomainError {
    /// The message of the error, as it is displayed.
    pub fn to_string(&self) -> (res: String)
        ensures
            res@ == match self {
                DomainError::ConfigParseError { reason } => "Failed to parse configuration: "@ + reason@,
                DomainError::ModuleNotFound { module_name } => "Module '"@ + module_name@
                    + "' not found in registry"@,
                DomainError::Internal { message } => "Internal domain error: "@ + message@,
                DomainError::ScriptError { module_name, message } => "Script error in module '"@
                    + module_name@ + "': "@ + message@,
                DomainError::Color(e) => "Color error: "@ + e.message_spec(),
            },
    {
        match self {
            DomainError::ConfigParseError { reason } => {
                let mut m = "Failed to parse configuration: ".to_owned();
                m.append(reason.as_str());
                m
            },
            DomainError::ModuleNotFound { module_name } => {
                let mut m = "Module '".to_owned();
                m.append(module_name.as_str());
                m.append("' not found in registry");
                m
            },
            DomainError::Internal { message } => {
                let mut m = "Internal domain error: ".to_owned();
                m.append(message.as_str());
                m
            },
            DomainError::ScriptError { module_name, message } => {
                let mut m = "Script error in module '".to_owned();
                m.append(module_name.as_str());
                m.append("': ");
                m.append(message.as_str());
                m
            },
            DomainError::Color(e) => {
                let mut m = "Color error: ".to_owned();
                let inner = e.to_string();
                m.append(inner.as_str());
                m
            },
        }
    }
}

impl From<ColorError> for DomainError {
    fn from(e: ColorError) -> (res: Self) {
        DomainError::Color(e)
    }
}

impl vstd::std_specs::convert::FromSpecImpl<ColorError> for DomainError {
    open spec fn obeys_from_spec() -> bool {
        true
    }

    open spec fn from_spec(v: ColorError) -> Self {
        DomainError::Color(v)
    }
}

/// An error of an outside system the bar talks to.
#[derive(Debug)]
pub enum PortError {
    DisplayConnectionFailed { reason: String },
    SurfaceError { target_id: u32, reason: String },
    WindowManagerIpcError { reason: String },
    /// An operating-system error, with its message.
    Io(String),
    DBusError { reason: String },
    InitFailed(String),
    Internal(String),
}

impl PortError {
    /// The message of the error, as it is displayed.
    pub fn to_string(&self) -> (res: String)
        ensures
            res@ == match self {
                PortError::DisplayConnectionFailed { reason } => "Display server connection failed: "@
                    + reason@,
                PortError::SurfaceError { target_id, reason } => "Surface error for target "@
                    + decimal(*target_id as nat) + ": "@ + reason@,
                PortError::WindowManagerIpcError { reason } => "Window manager IPC error: "@ + reason@,
                PortError::Io(s) => "I/O error: "@ + s@,
                PortError::DBusError { reason } => "DBus error: "@ + reason@,
                PortError::InitFailed(s) => "Port initialization failed: "@ + s@,
                PortError::Internal(s) => "Internal port error: "@ + s@,
            },
    {
        match self {
            PortError::DisplayConnectionFailed { reason } => {
                let mut m = "Display server connection failed: ".to_owned();
                m.append(reason.as_str());
                m
            },
            PortError::SurfaceError { target_id, reason } => {
                let mut m = "Surface error for target ".to_owned();
                append_decimal(&mut m, *target_id);
                m.append(": ");
                m.append(reason.as_str());
                m
            },
            PortError::WindowManagerIpcError { reason } => {
                let mut m = "Window manager IPC error: ".to_owned();
                m.append(reason.as_str());
                m
            },
            PortError::Io(s) => {
                let mut m = "I/O error: ".to_owned();
                m.append(s.as_str());
                m
            },
            PortError::DBusError { reason } => {
                let mut m = "DBus error: ".to_owned();
                m.append(reason.as_str());
                m
            },
            PortError::InitFailed(s) => {
                let mut m = "Port initialization failed: ".to_owned();
                m.append(s.as_str());
                m
            },
            PortError::Internal(s) => {
                let mut m = "Internal port error: ".to_owned();
                m.append(s.as_str());
                m
            },
        }
    }
}

} // verus!
