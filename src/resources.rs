use vstd::prelude::*;
use vstd::string::*;
use crate::error::Error;

verus! {

/// An identifier a certificate is requested for.
#[derive(Debug)]
pub struct Identifier {
    /// The type of identifier; this client emits `dns` only.
    pub typ: String,
    /// The identifier itself.
    pub value: String,
}

impl Identifier {
    /// A `dns` identifier for `fqdn`.
    pub fn dns(fqdn: String) -> (r: Identifier)
        ensures
            r.typ@ == "dns"@,
            r.value == fqdn,
    {
        Identifier { typ: String::from_str("dns"), value: fqdn }
    }
}

/// What polling should do after observing a resource's status.
#[derive(PartialEq, Eq, Structural, Debug, Clone, Copy)]
pub enum Poll {
    /// Not settled yet: poll again after the interval.
    Wait,
    /// Reached the state that was waited for.
    Done,
    /// Reached a state it will not leave successfully.
    Failed,
}

/// A polled resource, judged: still settling, settled as hoped, or failed.
#[derive(Debug)]
pub enum Observation<T> {
    Wait(T),
    Done(T),
    Failed(Error),
}

} // verus!
