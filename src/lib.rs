//! Provisioning handshake with the platform's metadata service: fetch the
//! goal state, read the instance identity out of it, build the readiness
//! report, and send it back, retrying the two network steps with backoff.

pub mod cycle;
pub mod error;
pub mod goal_state;
pub mod protocol;
pub mod readiness;
pub mod retry;
