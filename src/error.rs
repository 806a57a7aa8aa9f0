//! Failure kinds of one provisioning cycle.

use vstd::prelude::*;

verus! {

/// The two network steps of the handshake.
#[derive(Debug, Clone, Copy, PartialEq, Eq, Structural)]
pub enum Operation {
    FetchGoalState,
    ReportReady,
}

/// Why a provisioning cycle failed. Transport and protocol failures come from
/// the network steps and are retried; the rest are fatal at once.
#[derive(Debug)]
pub enum AppError {
    /// The request could not be completed (connection, timeout, bad response).
    Transport(String),
    /// The service answered with a status other than 200.
    Protocol { operation: Operation, status: u32 },
    /// The goal-state body is not valid UTF-8.
    Decode,
    /// The goal-state body is not a well-formed XML document.
    MalformedDocument(xmltree::ParseError),
    /// A required element of the goal state is absent; holds its tag.
    MissingElement(String),
    /// The XML writer refused the readiness document.
    Encode(xml::writer::Error),
}

} // verus!
