//! The 128-bit partition-type identifier: field layout, the raw 16-byte
//! codec, and the byte-order flip for identifiers published in the
//! non-canonical orientation.

use vstd::prelude::*;

verus! {

/// A 128-bit mixed-endian partition-type identifier.
///
/// Five fields compose the 128 bits. `node` carries 48 bits inside a 64-bit
/// container; a well-formed value keeps the container's upper 16 bits zero
/// (see [`PartitionTypeGuid::valid`]). Equality is exact fieldwise equality:
/// an identifier and its byte-swapped counterpart are distinct values unless
/// explicitly flipped.
#[derive(Clone, Copy, Debug, PartialEq, Eq, Structural)]
pub struct PartitionTypeGuid {
    pub time_low: u32,
    pub time_mid: u16,
    pub time_hi_and_version: u16,
    pub clock_seq: u16,
    pub node: u64,
}

/// A 16-bit value assembled from two bytes, least significant byte first.
pub open spec fn u16_from_le(b0: u8, b1: u8) -> u16 {
    (b0 as u16) | ((b1 as u16) << 8)
}

/// A 32-bit value assembled from four bytes, least significant byte first.
pub open spec fn u32_from_le(b0: u8, b1: u8, b2: u8, b3: u8) -> u32 {
    (b0 as u32) | ((b1 as u32) << 8) | ((b2 as u32) << 16) | ((b3 as u32) << 24)
}

/// A 48-bit value assembled from six bytes, most significant byte first,
/// zero-extended into a 64-bit container.
pub open spec fn u48_from_be(b0: u8, b1: u8, b2: u8, b3: u8, b4: u8, b5: u8) -> u64 {
    ((b0 as u64) << 40) | ((b1 as u64) << 32) | ((b2 as u64) << 24) | ((b3 as u64) << 16)
        | ((b4 as u64) << 8) | (b5 as u64)
}

/// The bytes of a 16-bit value in reversed order.
pub open spec fn u16_byte_swap(x: u16) -> u16 {
    ((x & 0xff) << 8) | ((x >> 8) & 0xff)
}

/// The bytes of a 32-bit value in reversed order.
pub open spec fn u32_byte_swap(x: u32) -> u32 {
    ((x & 0xff) << 24) | (((x >> 8) & 0xff) << 16) | (((x >> 16) & 0xff) << 8) | ((x >> 24) & 0xff)
}

impl PartitionTypeGuid {
    /// The type's invariant: the unused upper 16 bits of the `node`
    /// container are zero.
    pub open spec fn valid(self) -> bool {
        self.node < 0x1_0000_0000_0000
    }

    /// The byte-swapped counterpart of `self`: the bytes of `time_low`,
    /// `time_mid` and `time_hi_and_version` are each reversed, while
    /// `clock_seq` and `node` are unchanged.
    pub open spec fn spec_flip(self) -> PartitionTypeGuid {
        PartitionTypeGuid {
            time_low: u32_byte_swap(self.time_low),
            time_mid: u16_byte_swap(self.time_mid),
            time_hi_and_version: u16_byte_swap(self.time_hi_and_version),
            clock_seq: self.clock_seq,
            node: self.node,
        }
    }

    /// Derives the byte-swapped counterpart of `self`.
    ///
    /// Models the real-world inconsistency where some published
    /// partition-type identifiers appear byte-swapped relative to the
    /// canonical form.
    pub fn flip_endian(&self) -> (r: PartitionTypeGuid)
        ensures
            r == self.spec_flip(),
            r.valid() == self.valid(),
    {
        PartitionTypeGuid {
            time_low: ((self.time_low & 0xff) << 24) | (((self.time_low >> 8) & 0xff) << 16)
                | (((self.time_low >> 16) & 0xff) << 8) | ((self.time_low >> 24) & 0xff),
            time_mid: ((self.time_mid & 0xff) << 8) | ((self.time_mid >> 8) & 0xff),
            time_hi_and_version: ((self.time_hi_and_version & 0xff) << 8)
                | ((self.time_hi_and_version >> 8) & 0xff),
            clock_seq: self.clock_seq,
            node: self.node,
        }
    }
}

/// The identifier encoded by a 16-byte buffer, field by field: bytes 0-3
/// give `time_low` little-endian, bytes 4-5 `time_mid` little-endian, bytes
/// 6-7 `time_hi_and_version` little-endian, bytes 8-9 `clock_seq`
/// big-endian, and bytes 10-15 `node` big-endian, zero-extended.
pub open spec fn spec_from_bytes(b: Seq<u8>) -> PartitionTypeGuid {
    PartitionTypeGuid {
        time_low: u32_from_le(b[0], b[1], b[2], b[3]),
        time_mid: u16_from_le(b[4], b[5]),
        time_hi_and_version: u16_from_le(b[6], b[7]),
        clock_seq: u16_from_le(b[9], b[8]),
        node: u48_from_be(b[10], b[11], b[12], b[13], b[14], b[15]),
    }
}

/// The 16-byte buffer encoding an identifier: the exact inverse of
/// [`spec_from_bytes`], with the upper 16 bits of `node` discarded.
pub open spec fn spec_into_bytes(v: PartitionTypeGuid) -> Seq<u8> {
    seq![
        (v.time_low & 0xff) as u8,
        ((v.time_low >> 8) & 0xff) as u8,
        ((v.time_low >> 16) & 0xff) as u8,
        ((v.time_low >> 24) & 0xff) as u8,
        (v.time_mid & 0xff) as u8,
        ((v.time_mid >> 8) & 0xff) as u8,
        (v.time_hi_and_version & 0xff) as u8,
        ((v.time_hi_and_version >> 8) & 0xff) as u8,
        ((v.clock_seq >> 8) & 0xff) as u8,
        (v.clock_seq & 0xff) as u8,
        ((v.node >> 40) & 0xff) as u8,
        ((v.node >> 32) & 0xff) as u8,
        ((v.node >> 24) & 0xff) as u8,
        ((v.node >> 16) & 0xff) as u8,
        ((v.node >> 8) & 0xff) as u8,
        (v.node & 0xff) as u8,
    ]
}

impl PartitionTypeGuid {
    /// Decodes a 16-byte buffer into an identifier. Total: every buffer
    /// decodes to a well-formed value.
    pub fn from_bytes(bytes: [u8; 16]) -> (r: PartitionTypeGuid)
        ensures
            r == spec_from_bytes(bytes@),
            r.valid(),
    {
        let r = PartitionTypeGuid {
            time_low: (bytes[0] as u32) | ((bytes[1] as u32) << 8) | ((bytes[2] as u32) << 16)
                | ((bytes[3] as u32) << 24),
            time_mid: (bytes[4] as u16) | ((bytes[5] as u16) << 8),
            time_hi_and_version: (bytes[6] as u16) | ((bytes[7] as u16) << 8),
            clock_seq: (bytes[9] as u16) | ((bytes[8] as u16) << 8),
            node: ((bytes[10] as u64) << 40) | ((bytes[11] as u64) << 32)
                | ((bytes[12] as u64) << 24) | ((bytes[13] as u64) << 16)
                | ((bytes[14] as u64) << 8) | (bytes[15] as u64),
        };
        proof {
            lemma_u48_from_be_bound(
                bytes@[10], bytes@[11], bytes@[12], bytes@[13], bytes@[14], bytes@[15],
            );
        }
        r
    }

    /// Encodes an identifier into its 16-byte buffer, the exact inverse of
    /// [`PartitionTypeGuid::from_bytes`]. Total: the upper 16 bits of the
    /// `node` container are discarded (zero on every well-formed value).
    pub fn into_bytes(self) -> (r: [u8; 16])
        ensures
            r@ == spec_into_bytes(self),
    {
        let mut r: [u8; 16] = [0u8; 16];
        r[0] = (self.time_low & 0xff) as u8;
        r[1] = ((self.time_low >> 8) & 0xff) as u8;
        r[2] = ((self.time_low >> 16) & 0xff) as u8;
        r[3] = ((self.time_low >> 24) & 0xff) as u8;
        r[4] = (self.time_mid & 0xff) as u8;
        r[5] = ((self.time_mid >> 8) & 0xff) as u8;
        r[6] = (self.time_hi_and_version & 0xff) as u8;
        r[7] = ((self.time_hi_and_version >> 8) & 0xff) as u8;
        r[8] = ((self.clock_seq >> 8) & 0xff) as u8;
        r[9] = (self.clock_seq & 0xff) as u8;
        r[10] = ((self.node >> 40) & 0xff) as u8;
        r[11] = ((self.node >> 32) & 0xff) as u8;
        r[12] = ((self.node >> 24) & 0xff) as u8;
        r[13] = ((self.node >> 16) & 0xff) as u8;
        r[14] = ((self.node >> 8) & 0xff) as u8;
        r[15] = (self.node & 0xff) as u8;
        proof {
            assert(r@ =~= spec_into_bytes(self));
        }
        r
    }
}

/// A value assembled from six big-endian bytes fits in 48 bits.
proof fn lemma_u48_from_be_bound(b0: u8, b1: u8, b2: u8, b3: u8, b4: u8, b5: u8)
    by (bit_vector)
    ensures
        u48_from_be(b0, b1, b2, b3, b4, b5) < 0x1_0000_0000_0000,
{
}

/// Unpacking the bytes of a 16-bit value assembled least significant byte
/// first gives back those bytes.
proof fn lemma_u16_le_unpack(b0: u8, b1: u8)
    by (bit_vector)
    ensures
        (u16_from_le(b0, b1) & 0xff) as u8 == b0,
        ((u16_from_le(b0, b1) >> 8) & 0xff) as u8 == b1,
{
}

/// Unpacking the bytes of a 32-bit value assembled least significant byte
/// first gives back those bytes.
proof fn lemma_u32_le_unpack(b0: u8, b1: u8, b2: u8, b3: u8)
    by (bit_vector)
    ensures
        (u32_from_le(b0, b1, b2, b3) & 0xff) as u8 == b0,
        ((u32_from_le(b0, b1, b2, b3) >> 8) & 0xff) as u8 == b1,
        ((u32_from_le(b0, b1, b2, b3) >> 16) & 0xff) as u8 == b2,
        ((u32_from_le(b0, b1, b2, b3) >> 24) & 0xff) as u8 == b3,
{
}

/// Unpacking the bytes of a 48-bit value assembled most significant byte
/// first gives back those bytes.
proof fn lemma_u48_be_unpack(b0: u8, b1: u8, b2: u8, b3: u8, b4: u8, b5: u8)
    by (bit_vector)
    ensures
        ((u48_from_be(b0, b1, b2, b3, b4, b5) >> 40) & 0xff) as u8 == b0,
        ((u48_from_be(b0, b1, b2, b3, b4, b5) >> 32) & 0xff) as u8 == b1,
        ((u48_from_be(b0, b1, b2, b3, b4, b5) >> 24) & 0xff) as u8 == b2,
        ((u48_from_be(b0, b1, b2, b3, b4, b5) >> 16) & 0xff) as u8 == b3,
        ((u48_from_be(b0, b1, b2, b3, b4, b5) >> 8) & 0xff) as u8 == b4,
        (u48_from_be(b0, b1, b2, b3, b4, b5) & 0xff) as u8 == b5,
{
}

/// Reassembling a 16-bit value from its two unpacked bytes gives back the
/// value.
proof fn lemma_u16_le_pack(x: u16)
    by (bit_vector)
    ensures
        u16_from_le((x & 0xff) as u8, ((x >> 8) & 0xff) as u8) == x,
{
}

/// Reassembling a 32-bit value from its four unpacked bytes gives back the
/// value.
proof fn lemma_u32_le_pack(x: u32)
    by (bit_vector)
    ensures
        u32_from_le(
            (x & 0xff) as u8,
            ((x >> 8) & 0xff) as u8,
            ((x >> 16) & 0xff) as u8,
            ((x >> 24) & 0xff) as u8,
        ) == x,
{
}

/// Reassembling a 48-bit value from its six unpacked bytes gives back the
/// value.
proof fn lemma_u48_be_pack(x: u64)
    by (bit_vector)
    requires
        x < 0x1_0000_0000_0000,
    ensures
        u48_from_be(
            ((x >> 40) & 0xff) as u8,
            ((x >> 32) & 0xff) as u8,
            ((x >> 24) & 0xff) as u8,
            ((x >> 16) & 0xff) as u8,
            ((x >> 8) & 0xff) as u8,
            (x & 0xff) as u8,
        ) == x,
{
}

/// Byte-codec round trip, buffer side: encoding the identifier decoded from
/// any 16-byte buffer gives back that buffer.
pub proof fn lemma_bytes_round_trip(b: Seq<u8>)
    requires
        b.len() == 16,
    ensures
        spec_into_bytes(spec_from_bytes(b)) == b,
{
    lemma_u32_le_unpack(b[0], b[1], b[2], b[3]);
    lemma_u16_le_unpack(b[4], b[5]);
    lemma_u16_le_unpack(b[6], b[7]);
    lemma_u16_le_unpack(b[9], b[8]);
    lemma_u48_be_unpack(b[10], b[11], b[12], b[13], b[14], b[15]);
    assert(spec_into_bytes(spec_from_bytes(b)) =~= b);
}

/// Byte-codec round trip, value side: decoding the buffer encoding any
/// well-formed identifier gives back that identifier.
pub proof fn lemma_value_round_trip(v: PartitionTypeGuid)
    requires
        v.valid(),
    ensures
        spec_from_bytes(spec_into_bytes(v)) == v,
{
    lemma_u32_le_pack(v.time_low);
    lemma_u16_le_pack(v.time_mid);
    lemma_u16_le_pack(v.time_hi_and_version);
    lemma_u16_le_pack(v.clock_seq);
    lemma_u48_be_pack(v.node);
}

/// Flipping twice restores the original 16-bit value.
proof fn lemma_u16_byte_swap_involution(x: u16)
    by (bit_vector)
    ensures
        u16_byte_swap(u16_byte_swap(x)) == x,
{
}

/// Flipping twice restores the original 32-bit value.
proof fn lemma_u32_byte_swap_involution(x: u32)
    by (bit_vector)
    ensures
        u32_byte_swap(u32_byte_swap(x)) == x,
{
}

/// The byte-order flip is self-inverse: flipping any identifier twice
/// yields the identifier itself.
pub proof fn lemma_flip_involution(v: PartitionTypeGuid)
    ensures
        v.spec_flip().spec_flip() == v,
{
    lemma_u32_byte_swap_involution(v.time_low);
    lemma_u16_byte_swap_involution(v.time_mid);
    lemma_u16_byte_swap_involution(v.time_hi_and_version);
}

} // verus!
