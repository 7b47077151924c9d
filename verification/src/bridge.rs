//! The bridge as the engine knows it: where it is, who speaks to it, and the
//! news that the search for it and the registration with it bring back.

use crate::light::Light;
use vstd::prelude::*;
use vstd::string::StringExecFns;

verus! {

/// A network address, by the number that its bits spell.
#[derive(Clone, Copy, Debug, PartialEq, Eq, Structural)]
pub enum Address {
    V4(u32),
    V6(u128),
}

/// A bridge that commands can be sent to: its address and the user that it
/// knows the engine by.
#[derive(Debug, PartialEq, Eq)]
pub struct Bridge {
    pub ip: Address,
    pub user: String,
}

impl Bridge {
    /// The bridge at an address, spoken to as a user.
    pub fn new(ip: Address, user: String) -> (bridge: Bridge)
        ensures
            bridge == (Bridge { ip, user }),
    {
        Bridge { ip, user }
    }
}

impl Clone for Bridge {
    fn clone(&self) -> (copy: Bridge)
        ensures
            copy == *self,
    {
        Bridge { ip: self.ip, user: self.user.clone() }
    }
}

/// News from the work that goes on beside the engine.
#[derive(Debug, PartialEq, Eq)]
pub enum Signal {
    /// The search for a bridge has ended with this address.
    Ip(Option<Address>),
    /// The registration has ended with this bridge.
    Bridge(Option<Bridge>),
    /// The bridge has reported these lights.
    Lights(Vec<Light>),
    /// Something failed; the text is for the user.
    Error(String),
}

/// The text that tells the user of a failure with the given cause.
pub open spec fn error_text(cause: Seq<char>) -> Seq<char> {
    "Error: "@ + cause
}

/// The bridge to use among those that a search has found: the last one. With
/// none found the search has failed, and the text says so.
pub fn get_bridge_ip(found: Vec<Address>) -> (outcome: Result<Address, String>)
    ensures
        found@.len() > 0 ==> outcome == Ok::<Address, String>(found@.last()),
        found@.len() == 0 ==> outcome is Err && outcome->Err_0@ == "No hue bridge found."@,
{
    let mut found = found;
    match found.pop() {
        Some(ip) => Ok(ip),
        None => Err(String::from_str("No hue bridge found.")),
    }
}

impl Signal {
    /// The news that a search for a bridge brings: the address found, or the
    /// failure with its cause.
    pub fn discovered(outcome: Result<Address, String>) -> (signal: Signal)
        ensures
            outcome matches Ok(ip) ==> signal == Signal::Ip(Some(ip)),
            outcome matches Err(cause) ==> signal is Error && signal->Error_0@ == error_text(
                cause@,
            ),
    {
        match outcome {
            Ok(ip) => Signal::Ip(Some(ip)),
            Err(cause) => Signal::Error(String::from_str("Error: ").concat(cause.as_str())),
        }
    }

    /// The news that a registration at an address brings: the bridge with
    /// the user that it granted, or the failure with its cause.
    pub fn registered(ip: Address, outcome: Result<String, String>) -> (signal: Signal)
        ensures
            outcome matches Ok(user) ==> signal == Signal::Bridge(Some(Bridge { ip, user })),
            outcome matches Err(cause) ==> signal is Error && signal->Error_0@ == error_text(
                cause@,
            ),
    {
        match outcome {
            Ok(user) => Signal::Bridge(Some(Bridge::new(ip, user))),
            Err(cause) => Signal::Error(String::from_str("Error: ").concat(cause.as_str())),
        }
    }
}

} // verus!
