//! A verified client core for managing short-lived public HTTPS tunnels
//! through a local network-overlay daemon's control API.
//!
//! The crate holds the protocol client's decision logic, the serving
//! configuration model with unknown-field preservation, the route
//! conflict/patch engine, input validation, and the apply orchestrator's
//! state machines, each with a proved contract.
#![verifier::loop_isolation(false)]

pub mod apply;
pub mod backend;
pub mod client;
pub mod codec;
pub mod doctor;
pub mod error;
pub mod json;
pub mod open;
pub mod output;
pub mod patch;
pub mod status;
pub mod strutil;
pub mod transport;
pub mod tunnel;
pub mod types;
pub mod validation;
pub mod version;
