//! Formatting helpers and random identifiers.

pub mod fmt;
pub mod rand;
