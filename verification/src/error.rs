//! The internal error taxonomy. Failures are distinguished here so call
//! sites can branch on them; the wire-visible shape collapses every kind to
//! one generic message-carrying error.

use vstd::prelude::*;

verus! {

/// Internally distinguished failure kinds.
#[derive(Clone, Copy, PartialEq, Eq, Structural, Debug)]
pub enum CoreError {
    /// No admin record exists yet.
    AdminNodeNotCreated,
    /// An admin record exists but no admin engine is running.
    AdminNodeNotStarted,
    /// No admin record exists to start.
    AdminNodeNotFound,
    /// No record carries the requested public identity.
    NodeNotFound,
    /// A capability token failed to decode: a bad credential, never a
    /// backend failure.
    Macaroon,
    /// No unused listening port could be drawn.
    PortsExhausted,
    /// The protocol-engine factory produced no engine.
    EngineUnavailable,
}

impl CoreError {
    /// The human-readable message the wire error carries.
    pub open spec fn spec_message(self) -> Seq<char> {
        match self {
            CoreError::AdminNodeNotCreated => "admin node not created"@,
            CoreError::AdminNodeNotStarted => "admin node not started"@,
            CoreError::AdminNodeNotFound => "admin node not found, run create first"@,
            CoreError::NodeNotFound => "node not found"@,
            CoreError::Macaroon => "macaroon error"@,
            CoreError::PortsExhausted => "no ports left"@,
            CoreError::EngineUnavailable => "unable to construct node engine"@,
        }
    }

    pub fn message(&self) -> (r: String)
        ensures
            r@ == self.spec_message(),
    {
        match self {
            CoreError::AdminNodeNotCreated => String::from_str("admin node not created"),
            CoreError::AdminNodeNotStarted => String::from_str("admin node not started"),
            CoreError::AdminNodeNotFound => String::from_str(
                "admin node not found, run create first",
            ),
            CoreError::NodeNotFound => String::from_str("node not found"),
            CoreError::Macaroon => String::from_str("macaroon error"),
            CoreError::PortsExhausted => String::from_str("no ports left"),
            CoreError::EngineUnavailable => String::from_str("unable to construct node engine"),
        }
    }
}

} // verus!
