//! The Wayland front end's own logic: its errors and how long it waits
//! between two frames.
pub mod bar;
pub mod hyprland;
pub mod outputs;

use vstd::prelude::*;
use crate::config::RenderingMode;
use crate::domain::config::Config;

verus! {

broadcast use vstd::string::group_string_axioms;

/// What went wrong talking to the compositor.
#[derive(Debug)]
pub enum CoreError {
    Connection(String),
    Global(String),
    Dispatch(String),
}

impl CoreError {
    /// The message of the error, as it is displayed.
    pub fn to_string(&self) -> (res: String)
        ensures
            res@ == match self {
                CoreError::Connection(s) => "Wayland connection failed: "@ + s@,
                CoreError::Global(s) => "Wayland global error: "@ + s@,
                CoreError::Dispatch(s) => "Wayland dispatch error: "@ + s@,
            },
    {
        let (prefix, s) = match self {
            CoreError::Connection(s) => ("Wayland connection failed: ", s),
            CoreError::Global(s) => ("Wayland global error: ", s),
            CoreError::Dispatch(s) => ("Wayland dispatch error: ", s),
        };
        let mut m = prefix.to_owned();
        m.append(s.as_str());
        m
    }
}

/// How the frame loop waits before its next tick.
#[derive(Debug, Clone, Copy, PartialEq, Eq, Structural)]
pub enum TickCadence {
    /// Sleep this many milliseconds.
    SleepMillis(u64),
    /// Sleep one second divided by this (positive) frame rate.
    SleepPerFrame(u32),
    /// Do not sleep; only give other tasks a turn.
    Yield,
}

/// The wait between ticks: a fixed period (at least one millisecond), a
/// frame-rate cap, or none for an uncapped immediate mode (a cap of zero
/// counts as none).
pub open spec fn cadence_of(mode: RenderingMode) -> TickCadence {
    match mode {
        RenderingMode::Immediate { fps_limit } => match fps_limit {
            Some(fps) => if fps > 0 {
                TickCadence::SleepPerFrame(fps)
            } else {
                TickCadence::Yield
            },
            None => TickCadence::Yield,
        },
        RenderingMode::Timebased { duration_ms } => TickCadence::SleepMillis(
            if duration_ms >= 1 {
                duration_ms
            } else {
                1
            },
        ),
    }
}

pub fn tick_cadence(mode: &RenderingMode) -> (res: TickCadence)
    ensures
        res == cadence_of(*mode),
{
    match mode {
        RenderingMode::Immediate { fps_limit } => match fps_limit {
            Some(fps) if *fps > 0 => TickCadence::SleepPerFrame(*fps),
            _ => TickCadence::Yield,
        },
        RenderingMode::Timebased { duration_ms } => TickCadence::SleepMillis(
            if *duration_ms >= 1 {
                *duration_ms
            } else {
                1
            },
        ),
    }
}

/// The frame loop never spins: every cadence but an uncapped immediate mode
/// sleeps for a positive time.
pub proof fn lemma_cadence_never_zero(mode: RenderingMode)
    ensures
        cadence_of(mode) matches TickCadence::SleepMillis(ms) ==> ms >= 1,
        cadence_of(mode) matches TickCadence::SleepPerFrame(fps) ==> fps >= 1,
        cadence_of(mode) is Yield <==> (mode matches RenderingMode::Immediate { fps_limit } && (
        fps_limit is None || fps_limit == Some(0u32))),
{
}

/// The configuration the bars are drawn with and the error they show, as a
/// reload of the configuration file leaves them.
pub struct ReloadState {
    config: Config,
    error_message: Option<String>,
}

/// The view of an optional message.
pub open spec fn opt_text_view(m: Option<String>) -> Option<Seq<char>> {
    match m {
        Some(t) => Some(t@),
        None => None,
    }
}

impl ReloadState {
    pub closed spec fn spec_config(&self) -> Config {
        self.config
    }

    pub closed spec fn spec_error(&self) -> Option<Seq<char>> {
        opt_text_view(self.error_message)
    }

    /// The state after start-up: the configuration that was loaded, no error.
    pub fn new(config: Config) -> (res: Self)
        ensures
            res.spec_config() == config,
            res.spec_error() is None,
    {
        ReloadState { config, error_message: None }
    }

    pub fn config(&self) -> (res: &Config)
        ensures
            *res == self.spec_config(),
    {
        &self.config
    }

    pub fn error_message(&self) -> (res: Option<&String>)
        ensures
            match res {
                Some(m) => self.spec_error() == Some(m@),
                None => self.spec_error() is None,
            },
    {
        match &self.error_message {
            Some(m) => Some(m),
            None => None,
        }
    }

    /// Settles a reload. `reload` is what reading the configuration file
    /// gave (its error as text); `registry_error` is what loading the modules
    /// of the new configuration gave, and is not looked at when the file
    /// could not be read. A configuration is taken only when its modules
    /// load, and then the error is cleared; otherwise the current
    /// configuration stays and the error is shown.
    pub fn apply_reload(&mut self, reload: Result<Config, String>, registry_error: Option<String>)
        ensures
            match reload {
                Ok(c) => match registry_error {
                    Some(e) => final(self).spec_config() == old(self).spec_config()
                        && final(self).spec_error() == Some(e@),
                    None => final(self).spec_config() == c && final(self).spec_error() is None,
                },
                Err(e) => final(self).spec_config() == old(self).spec_config()
                    && final(self).spec_error() == Some(e@),
            },
    {
        match reload {
            Ok(c) => match registry_error {
                Some(e) => {
                    self.error_message = Some(e);
                },
                None => {
                    self.config = c;
                    self.error_message = None;
                },
            },
            Err(e) => {
                self.error_message = Some(e);
            },
        }
    }
}

} // verus!
