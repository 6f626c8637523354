//! Keyset pagination over filtered, sorted collections, together with the
//! error catalogue shared by every endpoint.

pub mod collection;
pub mod error;
pub mod laws;
pub mod nationality;
pub mod pagination;
pub mod player;
pub mod query;
pub mod record;
pub mod user;
