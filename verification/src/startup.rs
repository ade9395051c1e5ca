//! The failures that end the start of the server.

use crate::style::{paint, styled, tint_code, Tint};
use vstd::prelude::*;

verus! {

/// Why the server cannot start.
#[derive(Clone, Copy, Debug, PartialEq, Eq)]
pub enum StartupError {
    /// Neither a port was asked for nor a fallback port is configured.
    NoFallbackPorts,
    /// None of the candidate ports could be bound.
    NoPortAvailable,
    /// The network interfaces of the host could not be listed.
    InterfacesUnavailable,
    /// No entry of the configured bind list names an address to bind.
    NoBindAddress,
}

impl StartupError {
    /// The message that tells the user of the failure.
    pub open spec fn message_view(self) -> Seq<char> {
        match self {
            StartupError::NoFallbackPorts => "No fallback ports defined!"@,
            StartupError::NoPortAvailable => "No port is available!"@,
            StartupError::InterfacesUnavailable => "Network interfaces could not be listed!"@,
            StartupError::NoBindAddress => "No bind address could be resolved!"@,
        }
    }

    /// The message that tells the user of the failure.
    pub fn message(&self) -> (text: &'static str)
        ensures
            text@ == self.message_view(),
    {
        match self {
            StartupError::NoFallbackPorts => "No fallback ports defined!",
            StartupError::NoPortAvailable => "No port is available!",
            StartupError::InterfacesUnavailable => "Network interfaces could not be listed!",
            StartupError::NoBindAddress => "No bind address could be resolved!",
        }
    }
}

/// The line that is printed before the process ends on a fatal failure: the
/// message in red.
pub fn exit_text(msg: &str) -> (line: String)
    ensures
        line@ == styled(tint_code(Tint::Red), msg@),
{
    paint(Tint::Red, msg)
}

/// A warning as it is printed: the text in yellow. The server goes on after
/// a warning.
pub fn warning_text(msg: &str) -> (line: String)
    ensures
        line@ == styled(tint_code(Tint::Yellow), msg@),
{
    paint(Tint::Yellow, msg)
}

} // verus!
