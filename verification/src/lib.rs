//! Feed pipeline for a relay-backed messaging network: resolve a
//! human-readable identifier to an identity and its relays, collect the
//! identity's recent events from those relays within a time budget,
//! de-duplicate and order them, and render them as an RSS document.
pub mod aggregate;
pub mod collect;
pub mod model;
pub mod render;
pub mod resolve;
