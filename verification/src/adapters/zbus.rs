//! Errors of the D-Bus adapter.
use vstd::prelude::*;

verus! {

broadcast use vstd::string::group_string_axioms;

/// Why a D-Bus operation failed.
#[derive(Debug)]
pub enum DBusPortError {
    DBusError { reason: String },
}

impl DBusPortError {
    /// The message of the error, as it is displayed.
    pub fn to_string(&self) -> (res: String)
        ensures
            res@ == match self {
                DBusPortError::DBusError { reason } => "DBus error: "@ + reason@,
            },
    {
        match self {
            DBusPortError::DBusError { reason } => {
                let mut m = "DBus error: ".to_owned();
                m.append(reason.as_str());
                m
            },
        }
    }
}

/// Whether a signal reports changed properties (and so carries an
/// interface and a map of values) rather than a single value.
pub fn is_properties_changed(member: &str) -> (res: bool)
    ensures
        res == (member@ == "PropertiesChanged"@),
{
    let owned = member.to_owned();
    let expected = "PropertiesChanged".to_owned();
    owned == expected
}

/// `prefix.name`: the key under which a D-Bus value is kept. For
/// `PropertiesChanged` the prefix is the interface and the name the
/// property; for any other signal they are the object path and the member.
pub fn property_key(prefix: &str, name: &str) -> (res: String)
    ensures
        res@ == prefix@ + "."@ + name@,
{
    let mut k = prefix.to_owned();
    k.append(".");
    k.append(name);
    k
}

} // verus!
