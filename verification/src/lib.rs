//! Generation and parsing of time-based (version 1) UUIDs.
//!
//! A version 1 UUID packs a 60-bit timestamp (100-nanosecond ticks since
//! 1582-10-15T00:00:00), a 14-bit disambiguation counter ("clock sequence"),
//! and a 6-byte node identifier into a 128-bit value.

pub mod error;
pub mod identifier;
pub mod v1;

pub use error::Error;
pub use identifier::Uuid;
pub use identifier::Variant;
pub use identifier::Version;
