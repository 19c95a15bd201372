//! Session layer of a real-time collaborative-editing host.
//!
//! A small peer acts as a session host: it accepts join requests from
//! collaborators, authenticates them against a shared password and an
//! expected protocol version, registers each admitted user, and issues a
//! signed, time-limited session token. The crate holds the verified core:
//! the join/authentication protocol (`auth`), the user registry
//! (`registry`), token expiry arithmetic and signing (`token`), and the
//! server's start/stop lifecycle state machine (`lifecycle`). Network
//! transport and the synchronous-to-asynchronous runtime bridge live in the
//! surrounding host code, which drives the state machine through its
//! verified transition methods.

pub mod auth;
pub mod color;
pub mod lifecycle;
pub mod registry;
pub mod token;
pub mod user;
