//! Marshaling of host values into C-compatible primitive representations,
//! keyed by one-character type tags, and the decisions around opening shared
//! libraries and resolving their symbols.

pub mod dll;
pub mod error;
pub mod host;
pub mod pointer;
pub mod primitive;
