//! Loading the configuration: the errors it reports and the adapter that
//! holds where the file is and how font families are checked.
pub mod dto;

use vstd::prelude::*;
use crate::adapters::config::dto::{ConfigDto, FontValidatorPort};
use crate::domain::config::Config;
use std::path::PathBuf;
use std::sync::Arc;

verus! {

broadcast use vstd::string::group_string_axioms;

/// Why the configuration could not be loaded.
#[derive(Debug)]
pub enum ConfigAdapterError {
    ConfigParseError { reason: String },
    Internal { message: String },
}

impl ConfigAdapterError {
    /// The message of the error, as it is displayed.
    pub fn to_string(&self) -> (res: String)
        ensures
            res@ == match self {
                ConfigAdapterError::ConfigParseError { reason } => "Failed to parse configuration: "@
                    + reason@,
                ConfigAdapterError::Internal { message } => "Internal error: "@ + message@,
            },
    {
        match self {
            ConfigAdapterError::ConfigParseError { reason } => {
                let mut m = "Failed to parse configuration: ".to_owned();
                m.append(reason.as_str());
                m
            },
            ConfigAdapterError::Internal { message } => {
                let mut m = "Internal error: ".to_owned();
                m.append(message.as_str());
                m
            },
        }
    }
}

/// A filesystem path.
#[verifier::external_type_specification]
#[verifier::external_body]
pub struct ExPathBuf(PathBuf);

/// Where the configuration file is, and the font lookup that checks the
/// configured font family.
pub struct ConfigAdapter<V: FontValidatorPort> {
    config_path: PathBuf,
    validator: Arc<V>,
}

impl<V: FontValidatorPort> ConfigAdapter<V> {
    pub closed spec fn spec_path(&self) -> PathBuf {
        self.config_path
    }

    pub closed spec fn spec_validator(&self) -> V {
        *self.validator
    }

    /// An adapter reading the file at `config_path`.
    pub fn with_path(config_path: PathBuf, validator: V) -> (res: Self)
        ensures
            res.spec_path() == config_path,
            res.spec_validator() == validator,
    {
        ConfigAdapter { config_path, validator: Arc::new(validator) }
    }

    pub fn config_path(&self) -> (res: &PathBuf)
        ensures
            *res == self.spec_path(),
    {
        &self.config_path
    }

    /// The configuration that a parsed file describes.
    pub fn load_from_dto(&self, dto: ConfigDto) -> (res: Config)
        ensures
            res.spec_bar() == dto::bar_view(dto.bar, dto::family_accepted(dto.bar, self.spec_validator())),
            dto::modules_match(res.spec_modules().spec_left(), dto.modules.left@),
            dto::modules_match(res.spec_modules().spec_center(), dto.modules.center@),
            dto::modules_match(res.spec_modules().spec_right(), dto.modules.right@),
            res.spec_rendering() == dto::rendering_of(dto.rendering),
            res.spec_metrics() == dto.metrics@,
    {
        dto.into_domain(&*self.validator)
    }
}

} // verus!
