//! Core of a manager for hardware-isolated execution environments ("Keeps").
//!
//! A Keep is one isolated loader process running under a trust backend.
//! This crate holds the verified lifecycle core: backend selection, the
//! in-memory Keep registry, the lifecycle state machine, contract issuance,
//! message framing, and the decision logic of connection and dispatch.
//! Process spawning, socket I/O and wire serialization are left to the
//! surrounding, unverified layer, which hands their outcomes in as events.

use vstd::prelude::*;

pub mod backend;
pub mod connection;
pub mod contract;
pub mod dispatch;
pub mod error;
pub mod framing;
pub mod ident;
pub mod keep;
pub mod registry;
pub mod state;

verus! {

/// Address the manager listens on for local requests.
pub const LOCAL_LISTEN_ADDRESS: &'static str = "0.0.0.0";

/// Protocol name advertised to a loader at handshake.
pub const PROTO_NAME: &'static str = "Enarx-Keep-Manager";

/// Protocol version advertised to a loader at handshake.
pub const PROTO_VERSION: &'static str = "0.2";

/// Port the manager binds for its request surface.
pub const BIND_PORT: u16 = 3030;

} // verus!
