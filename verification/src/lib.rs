//! Mixed-endian 128-bit partition-type identifiers, as used to tag GUID
//! Partition Table entries.
//!
//! The library offers the identifier value type [`guid::PartitionTypeGuid`]
//! with its two physical encodings (a raw 16-byte layout and the canonical
//! 36-character hyphenated hex text), the byte-swap operation that reconciles
//! identifiers published in the non-canonical orientation, and an ordered
//! description table that resolves an identifier to an operating-system /
//! description label with an endianness fallback.

pub mod guid;
pub mod parse;
pub mod table;

pub use guid::PartitionTypeGuid;
pub use parse::{parse_guid, ParseError};
pub use table::{DescriptionTable, PartitionDescription};
