//! Parsing the canonical 36-character hyphenated hex text form of a
//! partition-type identifier.
//!
//! The text form reads each of the five hyphen-delimited groups left to
//! right as a plain big-endian integer, while the raw byte form stores the
//! first three fields little-endian: this mismatch is what makes the
//! identifier mixed-endian.

use vstd::prelude::*;
use vstd::arithmetic::power::{pow, lemma_pow_increases};
use vstd::string::StringSliceAdditionalSpecFns;
use crate::guid::PartitionTypeGuid;

verus! {

/// Why a text form was rejected.
#[derive(Clone, Copy, Debug, PartialEq, Eq, Structural)]
pub enum ParseError {
    /// A character outside `[0-9A-Fa-f]` stands in a hex-digit position.
    InvalidHexDigit,
    /// The text has the wrong length, a misplaced hyphen, or names a range
    /// outside the given buffer.
    MalformedFormat,
}

/// Whether a byte is the ASCII code of a hex digit.
pub open spec fn is_hex_digit(b: u8) -> bool {
    (0x30 <= b <= 0x39) || (0x61 <= b <= 0x66) || (0x41 <= b <= 0x46)
}

/// The value of an ASCII hex digit; zero on any other byte.
pub open spec fn hex_digit_value(b: u8) -> int {
    if 0x30 <= b <= 0x39 {
        b - 0x30
    } else if 0x61 <= b <= 0x66 {
        b - 0x61 + 10
    } else if 0x41 <= b <= 0x46 {
        b - 0x41 + 10
    } else {
        0
    }
}

/// Whether every byte of a sequence is the ASCII code of a hex digit.
pub open spec fn all_hex(s: Seq<u8>) -> bool {
    forall|i: int| 0 <= i < s.len() ==> is_hex_digit(#[trigger] s[i])
}

/// The integer a sequence of ASCII hex digits denotes, read left to right
/// as one big-endian number.
pub open spec fn hex_value(s: Seq<u8>) -> int
    decreases s.len(),
{
    if s.len() == 0 {
        0
    } else {
        hex_value(s.drop_last()) * 16 + hex_digit_value(s.last())
    }
}

/// What parsing a group of hex digits yields: its big-endian value, or
/// `InvalidHexDigit` if any byte is not a hex digit.
pub open spec fn spec_parse_hex(s: Seq<u8>) -> Result<u64, ParseError> {
    if all_hex(s) {
        Ok((hex_value(s) as u64))
    } else {
        Err(ParseError::InvalidHexDigit)
    }
}

/// The powers of 16 that bound the five digit groups and the widest group a
/// 64-bit accumulator can take.
proof fn lemma_pow16_values()
    ensures
        pow(16, 4) == 0x1_0000,
        pow(16, 8) == 0x1_0000_0000,
        pow(16, 12) == 0x1_0000_0000_0000,
        pow(16, 15) == 0x1000_0000_0000_0000,
        pow(16, 16) == 0x1_0000_0000_0000_0000,
{
    reveal_with_fuel(pow, 17);
}

/// A hex-digit value lies below 16.
proof fn lemma_hex_digit_value_bound(b: u8)
    ensures
        0 <= hex_digit_value(b) < 16,
{
}

/// The value of a digit group lies below 16 to the power of its length.
proof fn lemma_hex_value_bound(s: Seq<u8>)
    ensures
        0 <= hex_value(s) < pow(16, s.len()),
    decreases s.len(),
{
    reveal_with_fuel(pow, 2);
    if s.len() == 0 {
    } else {
        lemma_hex_value_bound(s.drop_last());
        lemma_hex_digit_value_bound(s.last());
        assert(pow(16, s.len()) == 16 * pow(16, (s.len() - 1) as nat));
    }
}

/// The value of a single ASCII hex digit, or `InvalidHexDigit` on any other
/// byte.
pub fn from_hex(byte: u8) -> (r: Result<u64, ParseError>)
    ensures
        is_hex_digit(byte) ==> r == Ok::<u64, ParseError>(hex_digit_value(byte) as u64),
        !is_hex_digit(byte) ==> r == Err::<u64, ParseError>(ParseError::InvalidHexDigit),
{
    if 0x30 <= byte && byte <= 0x39 {
        Ok((byte - 0x30) as u64)
    } else if 0x61 <= byte && byte <= 0x66 {
        Ok((byte - 0x61 + 10) as u64)
    } else if 0x41 <= byte && byte <= 0x46 {
        Ok((byte - 0x41 + 10) as u64)
    } else {
        Err(ParseError::InvalidHexDigit)
    }
}

/// Reads `BITS / 4` hex digits of `bytes` starting at position `at` as one
/// big-endian `BITS`-bit integer.
///
/// Fails with `MalformedFormat` when the digit range reaches past the end
/// of `bytes`, and with `InvalidHexDigit` when a byte in the range is not a
/// hex digit.
pub fn parse_hex_bytes<const BITS: usize>(bytes: &[u8], at: usize) -> (r: Result<
    u64,
    ParseError,
>)
    requires
        BITS <= 64,
    ensures
        at + BITS / 4 > bytes@.len() ==> r == Err::<u64, ParseError>(ParseError::MalformedFormat),
        at + BITS / 4 <= bytes@.len() ==> r == spec_parse_hex(
            bytes@.subrange(at as int, at + BITS / 4),
        ),
{
    let nibble_count: usize = BITS / 4;
    if nibble_count > bytes.len() || at > bytes.len() - nibble_count {
        return Err(ParseError::MalformedFormat);
    }
    let mut num: u64 = 0;
    let mut i: usize = 0;
    while i < nibble_count
        invariant
            nibble_count == BITS / 4 <= 16,
            at + nibble_count <= bytes@.len() <= usize::MAX,
            0 <= i <= nibble_count,
            all_hex(bytes@.subrange(at as int, at + i)),
            num == hex_value(bytes@.subrange(at as int, at + i)),
        decreases nibble_count - i,
    {
        let digit = match from_hex(bytes[at + i]) {
            Ok(d) => d,
            Err(e) => {
                proof {
                    assert(!all_hex(bytes@.subrange(at as int, at + nibble_count))) by {
                        assert(bytes@.subrange(at as int, at + nibble_count)[i as int]
                            == bytes@[at + i]);
                    }
                }
                return Err(e);
            },
        };
        proof {
            let prefix = bytes@.subrange(at as int, at + i);
            let grown = bytes@.subrange(at as int, at + i + 1);
            assert(grown.drop_last() =~= prefix);
            assert(grown.last() == bytes@[at + i]);
            lemma_hex_value_bound(prefix);
            lemma_pow_increases(16, i as nat, 15);
            lemma_pow16_values();
            assert(forall|j: int| 0 <= j < grown.len() ==> is_hex_digit(#[trigger] grown[j]));
        }
        num = num * 16 + digit;
        i = i + 1;
    }
    proof {
        lemma_hex_value_bound(bytes@.subrange(at as int, at + nibble_count));
        lemma_pow_increases(16, nibble_count as nat, 16);
        lemma_pow16_values();
    }
    Ok(num)
}

/// Whether the text has the canonical shape: 36 bytes with hyphens fixed at
/// positions 8, 13, 18 and 23.
pub open spec fn spec_layout_ok(s: Seq<u8>) -> bool {
    s.len() == 36 && s[8] == 0x2d && s[13] == 0x2d && s[18] == 0x2d && s[23] == 0x2d
}

/// Whether all five hyphen-delimited groups hold hex digits only.
pub open spec fn spec_groups_hex(s: Seq<u8>) -> bool {
    &&& all_hex(s.subrange(0, 8))
    &&& all_hex(s.subrange(9, 13))
    &&& all_hex(s.subrange(14, 18))
    &&& all_hex(s.subrange(19, 23))
    &&& all_hex(s.subrange(24, 36))
}

/// The identifier a well-formed canonical text denotes: each group, read as
/// a big-endian integer, is assigned directly to its field.
pub open spec fn spec_guid_of_text(s: Seq<u8>) -> PartitionTypeGuid {
    PartitionTypeGuid {
        time_low: hex_value(s.subrange(0, 8)) as u32,
        time_mid: hex_value(s.subrange(9, 13)) as u16,
        time_hi_and_version: hex_value(s.subrange(14, 18)) as u16,
        clock_seq: hex_value(s.subrange(19, 23)) as u16,
        node: hex_value(s.subrange(24, 36)) as u64,
    }
}

/// What parsing a canonical text yields: `MalformedFormat` on wrong length
/// or a misplaced hyphen, else `InvalidHexDigit` on a non-hex byte in a
/// digit position, else the denoted identifier.
pub open spec fn spec_parse_guid(s: Seq<u8>) -> Result<PartitionTypeGuid, ParseError> {
    if !spec_layout_ok(s) {
        Err(ParseError::MalformedFormat)
    } else if !spec_groups_hex(s) {
        Err(ParseError::InvalidHexDigit)
    } else {
        Ok(spec_guid_of_text(s))
    }
}

/// Parses the canonical 36-character hyphenated hex form
/// `XXXXXXXX-XXXX-XXXX-XXXX-XXXXXXXXXXXX` into an identifier.
///
/// Rejects a wrong length or a misplaced hyphen with `MalformedFormat`, and
/// a non-hex character in a digit position with `InvalidHexDigit`. Every
/// successfully parsed identifier is well-formed.
pub fn parse_guid(guid: &str) -> (r: Result<PartitionTypeGuid, ParseError>)
    ensures
        r == spec_parse_guid(guid.spec_bytes()),
        r matches Ok(g) ==> g.valid(),
{
    let bytes: &[u8] = guid.as_bytes();
    if bytes.len() != 36 {
        return Err(ParseError::MalformedFormat);
    }
    if bytes[8] != 0x2d || bytes[13] != 0x2d || bytes[18] != 0x2d || bytes[23] != 0x2d {
        return Err(ParseError::MalformedFormat);
    }
    let time_low = match parse_hex_bytes::<32>(bytes, 0) {
        Ok(v) => v,
        Err(e) => {
            return Err(e);
        },
    };
    let time_mid = match parse_hex_bytes::<16>(bytes, 9) {
        Ok(v) => v,
        Err(e) => {
            return Err(e);
        },
    };
    let time_hi_and_version = match parse_hex_bytes::<16>(bytes, 14) {
        Ok(v) => v,
        Err(e) => {
            return Err(e);
        },
    };
    let clock_seq = match parse_hex_bytes::<16>(bytes, 19) {
        Ok(v) => v,
        Err(e) => {
            return Err(e);
        },
    };
    let node = match parse_hex_bytes::<48>(bytes, 24) {
        Ok(v) => v,
        Err(e) => {
            return Err(e);
        },
    };
    proof {
        lemma_hex_value_bound(bytes@.subrange(0, 8));
        lemma_hex_value_bound(bytes@.subrange(9, 13));
        lemma_hex_value_bound(bytes@.subrange(14, 18));
        lemma_hex_value_bound(bytes@.subrange(19, 23));
        lemma_hex_value_bound(bytes@.subrange(24, 36));
        lemma_pow16_values();
    }
    Ok(
        PartitionTypeGuid {
            time_low: time_low as u32,
            time_mid: time_mid as u16,
            time_hi_and_version: time_hi_and_version as u16,
            clock_seq: clock_seq as u16,
            node,
        },
    )
}

} // verus!
