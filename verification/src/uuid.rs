//! The 128-bit uProtocol message identifier.
use vstd::prelude::*;

verus! {

/// A uProtocol UUID, held as its most and least significant 64 bits.
#[derive(Clone, Copy, Debug, PartialEq, Eq, Hash, Structural)]
pub struct UUID {
    pub msb: u64,
    pub lsb: u64,
}

/// The version bits of a uProtocol UUID say version 7, and its variant bits say RFC 4122.
pub open spec fn is_uprotocol_uuid_bits(msb: u64, lsb: u64) -> bool {
    &&& msb & 0xF000 == 0x7000
    &&& lsb & 0xC000_0000_0000_0000 == 0x8000_0000_0000_0000
}

impl UUID {
    /// Whether this UUID has the version and variant that uProtocol requires: version 7 in bits
    /// 12 to 15 of the upper half, and binary 10 in the top two bits of the lower half.
    pub fn is_uprotocol_uuid(&self) -> (r: bool)
        ensures
            r == is_uprotocol_uuid_bits(self.msb, self.lsb),
    {
        (self.msb & 0xF000u64) == 0x7000u64 && (self.lsb & 0xC000_0000_0000_0000u64) == 0x8000_0000_0000_0000u64
    }

    /// The UUID as one 128-bit number, upper half first.
    pub fn to_u128(&self) -> (r: u128)
        ensures
            r == uuid_number(*self),
    {
        let msb = self.msb;
        let lsb = self.lsb;
        assert((((msb as u128) << 64u128) | (lsb as u128)) == msb as int * 0x1_0000_0000_0000_0000
            + lsb as int) by (bit_vector);
        ((msb as u128) << 64u128) | (lsb as u128)
    }
}

/// The 128-bit number that a UUID stands for.
pub open spec fn uuid_number(id: UUID) -> int {
    id.msb as int * 0x1_0000_0000_0000_0000 + id.lsb as int
}

/// Two UUIDs stand for the same number only when they are equal.
pub proof fn lemma_uuid_number_injective(a: UUID, b: UUID)
    requires
        uuid_number(a) == uuid_number(b),
    ensures
        a == b,
{
    assert(a.lsb < 0x1_0000_0000_0000_0000);
    assert(b.lsb < 0x1_0000_0000_0000_0000);
    if a.msb < b.msb {
        assert(a.msb as int * 0x1_0000_0000_0000_0000 + 0x1_0000_0000_0000_0000 <= b.msb as int
            * 0x1_0000_0000_0000_0000);
    } else if a.msb > b.msb {
        assert(b.msb as int * 0x1_0000_0000_0000_0000 + 0x1_0000_0000_0000_0000 <= a.msb as int
            * 0x1_0000_0000_0000_0000);
    }
}

} // verus!
