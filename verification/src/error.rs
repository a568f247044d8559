//! What may be missing when an act is carried out.

use vstd::prelude::*;

verus! {

/// An act needs a server, and neither the act nor what led to it names one.
#[derive(Clone, Copy, Debug, PartialEq, Eq, Structural)]
pub struct MissingServer;

impl MissingServer {
    /// Says what is missing.
    pub fn to_string(&self) -> (r: String)
        ensures
            r@ == "no server information available"@,
    {
        "no server information available".to_owned()
    }
}

/// An act needs a channel, and neither the act nor what led to it names one.
#[derive(Clone, Copy, Debug, PartialEq, Eq, Structural)]
pub struct MissingChannel;

impl MissingChannel {
    /// Says what is missing.
    pub fn to_string(&self) -> (r: String)
        ensures
            r@ == "no channel information available"@,
    {
        "no channel information available".to_owned()
    }
}

} // verus!
