use vstd::prelude::*;

use crate::bit_storage::{saturate, saturating_product};

verus! {

/// A storage representation large enough to hold a required number of bits.
#[derive(Clone, Copy, Debug, PartialEq, Eq, Structural)]
pub enum StorageRecommendation {
    /// Use `u8`.
    U8,
    /// Use `u16`.
    U16,
    /// Use `u32`.
    U32,
    /// Use `u64`.
    U64,
    /// Use `u128`.
    U128,
    /// Use `[u8; bytes]` or `Vec<u8>`.
    ByteArray {
        /// Number of bytes required to contain the requested bit count.
        bytes: usize,
    },
}

/// The recommendation for `bits`: the narrowest primitive whose width holds
/// them, and beyond 128 bits the fewest whole bytes that hold them.
pub open spec fn spec_for_bits(bits: int) -> StorageRecommendation {
    if bits <= 8 {
        StorageRecommendation::U8
    } else if bits <= 16 {
        StorageRecommendation::U16
    } else if bits <= 32 {
        StorageRecommendation::U32
    } else if bits <= 64 {
        StorageRecommendation::U64
    } else if bits <= 128 {
        StorageRecommendation::U128
    } else {
        StorageRecommendation::ByteArray { bytes: ((bits + 7) / 8) as usize }
    }
}

impl StorageRecommendation {
    /// The number of usable bits of this representation, as [`Self::capacity_bits`] reports it.
    pub open spec fn spec_capacity_bits(self) -> int {
        match self {
            StorageRecommendation::U8 => 8,
            StorageRecommendation::U16 => 16,
            StorageRecommendation::U32 => 32,
            StorageRecommendation::U64 => 64,
            StorageRecommendation::U128 => 128,
            StorageRecommendation::ByteArray { bytes } => saturate(bytes * 8),
        }
    }

    /// Whether this is one of the primitive integer representations.
    pub open spec fn is_primitive(self) -> bool {
        !(self is ByteArray)
    }

    /// Selects the smallest built-in supported representation for `bits`.
    ///
    /// Zero bits select `u8`, because the supported primitive representations
    /// all have at least eight bits.
    pub fn for_bits(bits: usize) -> (recommendation: Self)
        ensures
            recommendation == spec_for_bits(bits as int),
    {
        if bits <= 8 {
            StorageRecommendation::U8
        } else if bits <= 16 {
            StorageRecommendation::U16
        } else if bits <= 32 {
            StorageRecommendation::U32
        } else if bits <= 64 {
            StorageRecommendation::U64
        } else if bits <= 128 {
            StorageRecommendation::U128
        } else {
            let bytes = bits / 8 + if bits % 8 == 0 {
                0
            } else {
                1
            };
            StorageRecommendation::ByteArray { bytes }
        }
    }

    /// Returns the number of usable bits in the recommended representation.
    pub fn capacity_bits(self) -> (capacity: usize)
        ensures
            capacity == self.spec_capacity_bits(),
    {
        match self {
            StorageRecommendation::U8 => 8,
            StorageRecommendation::U16 => 16,
            StorageRecommendation::U32 => 32,
            StorageRecommendation::U64 => 64,
            StorageRecommendation::U128 => 128,
            StorageRecommendation::ByteArray { bytes } => saturating_product(bytes, 8),
        }
    }
}

/// The recommended representation for `bits` holds them: its capacity is at
/// least `bits`. Up to 128 bits it is the narrowest primitive that holds them;
/// beyond, its byte count is the fewest that hold them, so that fewer than
/// eight bits are left over.
pub proof fn lemma_recommendation_holds_bits(bits: usize)
    ensures
        spec_for_bits(bits as int).spec_capacity_bits() >= bits,
        bits <= 128 ==> spec_for_bits(bits as int).is_primitive() && forall|other: StorageRecommendation|
            #![trigger other.spec_capacity_bits()]
            other.is_primitive() && other.spec_capacity_bits() >= bits
                ==> spec_for_bits(bits as int).spec_capacity_bits() <= other.spec_capacity_bits(),
        bits > 128 ==> spec_for_bits(bits as int).spec_capacity_bits() < bits + 8,
{
}

} // verus!
