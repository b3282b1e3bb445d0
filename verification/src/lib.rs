//! Pause, resume and toggle logic for desktop media players that expose the
//! standard remote-control bus interface.
//!
//! The crate verifies the decision layer of the protocol: which bus requests
//! to issue, how to interpret their replies, and what the process-wide set of
//! paused players holds afterwards. An unverified shell that talks to the
//! session bus drives the machines in this crate one request at a time.

pub mod controller;
pub mod directory;
pub mod pause;
pub mod protocol;
pub mod resume;
pub mod status;
pub mod toggle;
