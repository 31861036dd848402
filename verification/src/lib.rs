//! A small unit-conversion engine.
//!
//! The library knows a closed vocabulary of physical units, parses their
//! textual aliases, renders canonical display symbols, and resolves ordered
//! unit pairs against a fixed allow-list of direct conversions.  Every factor
//! is kept as an exact ratio of two integers, so the engine itself is free of
//! rounding; callers apply a factor to a numeric value in whatever precision
//! they need.

pub mod convert;
pub mod error;
pub mod number;
pub mod request;
pub mod text;
pub mod units;
