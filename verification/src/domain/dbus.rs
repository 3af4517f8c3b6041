use vstd::prelude::*;

verus! {

/// Which message bus a subscription listens on.
#[derive(Debug, Clone, Copy, PartialEq, Eq, Structural, Hash)]
pub enum BusType {
    Session,
    System,
}

/// A match rule for DBus signals; absent fields match anything.
#[derive(Debug, Clone, PartialEq, Eq, Hash)]
pub struct DBusSubscription {
    pub bus: BusType,
    pub destination: Option<String>,
    pub path: Option<String>,
    pub interface: Option<String>,
    pub member: Option<String>,
}

} // verus!
