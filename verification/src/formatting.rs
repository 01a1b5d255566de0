//! Formatting utilities for human-readable display of numbers, bytes, and time.
//!
//! Each helper turns a raw unsigned value into a short display string with a
//! unit suffix.  The exact text is pinned down by spec functions built from
//! [`digits`], so every formatted string is proved character for character.

pub mod bytes;
pub mod digits;
pub mod numbers;
pub mod time;

pub use bytes::format_bytes;
pub use numbers::format_number;
pub use time::format_duration;
pub use time::format_latency;
