//! Errors of loading and running modules.
use vstd::prelude::*;
use crate::services::builtins::BuiltinError;
use crate::services::commands::ModuleName;

verus! {

broadcast use vstd::string::group_string_axioms;

/// An error a module reports.
#[derive(Debug, PartialEq, Eq)]
pub enum ModuleError {
    Internal { message: String },
}

impl ModuleError {
    pub open spec fn message_spec(&self) -> Seq<char> {
        match self {
            ModuleError::Internal { message } => "Internal module error: "@ + message@,
        }
    }

    /// The message of the error, as it is displayed.
    pub fn to_string(&self) -> (res: String)
        ensures
            res@ == self.message_spec(),
    {
        match self {
            ModuleError::Internal { message } => {
                let mut m = "Internal module error: ".to_owned();
                m.append(message.as_str());
                m
            },
        }
    }
}

/// Why the registry could not load a module.
#[derive(Debug, PartialEq, Eq)]
pub enum RegistryLoadError {
    ModuleNotFound(ModuleName),
    UnsupportedEngine { engine: String, module_name: ModuleName },
    Internal(String),
    ModuleInit { module_name: ModuleName, source: ModuleError },
}

impl RegistryLoadError {
    pub open spec fn message_spec(&self) -> Seq<char> {
        match self {
            RegistryLoadError::ModuleNotFound(n) => "Module not found: "@ + n@,
            RegistryLoadError::UnsupportedEngine { engine, module_name } => "Unsupported engine '"@
                + engine@ + "' for module '"@ + module_name@ + "'"@,
            RegistryLoadError::Internal(s) => "Internal error: "@ + s@,
            RegistryLoadError::ModuleInit { module_name, source } => "Failed to initialize module '"@
                + module_name@ + "': "@ + source.message_spec(),
        }
    }

    /// The message of the error, as it is displayed.
    pub fn to_string(&self) -> (res: String)
        ensures
            res@ == self.message_spec(),
    {
        match self {
            RegistryLoadError::ModuleNotFound(n) => {
                let mut m = "Module not found: ".to_owned();
                m.append(n.as_str());
                m
            },
            RegistryLoadError::UnsupportedEngine { engine, module_name } => {
                let mut m = "Unsupported engine '".to_owned();
                m.append(engine.as_str());
                m.append("' for module '");
                m.append(module_name.as_str());
                m.append("'");
                m
            },
            RegistryLoadError::Internal(s) => {
                let mut m = "Internal error: ".to_owned();
                m.append(s.as_str());
                m
            },
            RegistryLoadError::ModuleInit { module_name, source } => {
                let mut m = "Failed to initialize module '".to_owned();
                m.append(module_name.as_str());
                m.append("': ");
                let inner = source.to_string();
                m.append(inner.as_str());
                m
            },
        }
    }

    /// The registry's error for a failed script lookup: a missing module or
    /// unknown engine keeps its kind; environment and file errors become
    /// internal errors with the same text.
    pub fn from_lookup(e: BuiltinError) -> (res: Self)
        ensures
            match e {
                BuiltinError::ModuleNotFound { module_name, .. } => res matches RegistryLoadError::ModuleNotFound(n)
                    && n@ == module_name@,
                BuiltinError::UnsupportedEngine { engine, module_name } => res matches RegistryLoadError::UnsupportedEngine {
                    engine: e2,
                    module_name: n,
                } && e2@ == engine@ && n@ == module_name@,
                BuiltinError::Env(s) => res matches RegistryLoadError::Internal(t) && t@ == s@,
                BuiltinError::Io(s) => res matches RegistryLoadError::Internal(t) && t@ == s@,
            },
    {
        match e {
            BuiltinError::ModuleNotFound { module_name, .. } => RegistryLoadError::ModuleNotFound(module_name),
            BuiltinError::UnsupportedEngine { engine, module_name } => RegistryLoadError::UnsupportedEngine {
                engine,
                module_name,
            },
            BuiltinError::Env(s) => RegistryLoadError::Internal(s),
            BuiltinError::Io(s) => RegistryLoadError::Internal(s),
        }
    }
}

} // verus!
