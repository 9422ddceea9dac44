//! Interact with Algorithmia algorithms.

pub mod algorithm;
pub mod bytevec;
pub mod uri;
pub mod version;
