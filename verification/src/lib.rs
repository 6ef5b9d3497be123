//! Scheduling core for a tennis league platform.
//!
//! Players register and join leagues, propose singles or doubles matches,
//! and accept or reject them.  The library holds the data model (players,
//! leagues, memberships, matches, join requests, appointments), the
//! membership validation that guards match acceptance, and the match
//! lifecycle transitions with their append-only audit notes.  All state
//! lives in an in-memory [`model::Store`]; callers that persist it or serve
//! it over a network sit outside this crate.

pub mod appointments;
pub mod auth;
pub mod clock;
pub mod config;
pub mod errors;
pub mod laws;
pub mod leagues;
pub mod matches;
pub mod model;
pub mod notes;
pub mod players;
pub mod strutil;
pub mod validate;
