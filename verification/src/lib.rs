//! An in-memory visitor registry: visitors carry a normalized name and a
//! greeting, lookups greet known visitors, unknown non-empty names are
//! registered, and an empty name ends the session.

pub mod laws;
pub mod normalize;
pub mod registry;
pub mod session;
