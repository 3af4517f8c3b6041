use vstd::prelude::*;

pub mod shared;
pub mod applets;
pub mod app;
pub mod commands;
pub mod bar_app;
pub mod errors;
pub mod layout;
pub mod color;
pub mod config;
pub mod dbus;
pub mod events;
pub mod metrics;
pub mod signals;
pub mod workspace;

verus! {

/// Identifier of a module instance on the bar.
#[derive(Debug, Clone, Copy, PartialEq, Eq, Structural, Hash)]
pub struct ModuleId(u32);

impl ModuleId {
    pub fn new(id: u32) -> (res: Self)
        ensures
            res.value() == id,
    {
        ModuleId(id)
    }

    pub closed spec fn value(&self) -> u32 {
        self.0
    }

    pub fn get(&self) -> (res: u32)
        ensures
            res == self.value(),
    {
        self.0
    }
}

/// Identifier of an output, by its connector name (e.g. `HDMI-1`).
#[derive(Debug, Clone, PartialEq, Eq, Hash)]
pub struct MonitorId(String);

impl View for MonitorId {
    type V = Seq<char>;

    closed spec fn view(&self) -> Seq<char> {
        self.0@
    }
}

impl MonitorId {
    pub fn new(name: &str) -> (res: Self)
        ensures
            res@ == name@,
    {
        MonitorId(name.to_owned())
    }

    pub fn as_str(&self) -> (res: &str)
        ensures
            res@ == self@,
    {
        self.0.as_str()
    }

    /// Whether both identifiers are the same text.
    pub fn same_as(&self, other: &MonitorId) -> (res: bool)
        ensures
            res == (self@ == other@),
    {
        self.0 == other.0
    }
}

} // verus!
