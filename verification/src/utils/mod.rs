//! Formatting, time and digest helpers used by the decoders.

pub mod crypto;
pub mod date;
pub mod format;
