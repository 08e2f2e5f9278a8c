//! A ticketing registry: organizers create events, tickets are minted against
//! an event, verified (checked in) exactly once, and transferred. The engine
//! is a state-transition core over an in-memory model of a key-addressed
//! record store; identities and invokers are explicit 32-byte values, so the
//! engine can be exercised with synthetic identities and no host.

pub mod accounts;
pub mod addressing;
pub mod errors;
pub mod identity;
pub mod laws;
pub mod registry;
pub mod table;
