//! A resilient decoding layer for an advertising-platform API: open
//! enumerations that never fail on unknown wire symbols, a fixed-format
//! UTC timestamp codec, and typed assembly of aggregate records from
//! parsed wire documents.

pub mod error;
pub mod fields;
pub mod open_enum;
pub mod records;
pub mod timestamp;
pub mod text;
pub mod value;
pub mod vocab;
