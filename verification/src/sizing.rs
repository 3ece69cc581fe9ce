use vstd::prelude::*;

use crate::encoded_boolean::correction_capacity;
use crate::error::SizingError;
use crate::storage_recommendation::{spec_for_bits, StorageRecommendation};

verus! {

/// A width calculation and a suitable supported storage representation.
#[derive(Clone, Copy, Debug, PartialEq, Eq, Structural)]
pub struct BitRequirement {
    bits: usize,
    storage: StorageRecommendation,
}

impl BitRequirement {
    /// The recommended storage is always the one for the required width.
    #[verifier::type_invariant]
    spec fn storage_matches_width(self) -> bool {
        self.storage == spec_for_bits(self.bits as int)
    }

    /// The minimum number of repetition-code bits required.
    pub closed spec fn spec_bits(self) -> usize {
        self.bits
    }

    /// Builds the requirement for `bits` code bits.
    pub(crate) fn new(bits: usize) -> (requirement: Self)
        ensures
            requirement.spec_bits() == bits,
    {
        BitRequirement { bits, storage: StorageRecommendation::for_bits(bits) }
    }

    /// Returns the minimum number of repetition-code bits required.
    pub fn bits(self) -> (bits: usize)
        ensures
            bits == self.spec_bits(),
    {
        self.bits
    }

    /// Returns a supported storage representation that can hold this width.
    ///
    /// Primitive storage is byte-aligned, so its
    /// [`StorageRecommendation::capacity_bits`] can exceed [`Self::bits`]. The
    /// extra bits are usable repetition-code bits and increase resilience.
    pub fn storage(self) -> (storage: StorageRecommendation)
        ensures
            storage == spec_for_bits(self.spec_bits() as int),
    {
        proof {
            use_type_invariant(&self);
        }
        self.storage
    }

    /// Returns the number of arbitrary flips this width corrects for sure.
    pub fn guaranteed_correction_capacity(self) -> (flips: usize)
        ensures
            flips == correction_capacity(self.spec_bits() as int),
    {
        self.bits.saturating_sub(1) / 2
    }
}

/// Returns the smallest width that corrects `max_bit_flips` arbitrary flips.
///
/// The result is `2 * max_bit_flips + 1`, the standard minimum-distance bound
/// for a two-codeword repetition code. This is a deterministic guarantee and
/// does not require a probability model.
pub fn bits_for_guaranteed_correction(max_bit_flips: usize) -> (requirement: Result<
    BitRequirement,
    SizingError,
>)
    ensures
        requirement is Ok <==> 2 * max_bit_flips + 1 <= usize::MAX,
        requirement matches Ok(r) ==> r.spec_bits() == 2 * max_bit_flips + 1,
        requirement matches Err(e) ==> e == SizingError::ArithmeticOverflow,
{
    let bits = match max_bit_flips.checked_mul(2) {
        Some(doubled) => match doubled.checked_add(1) {
            Some(bits) => bits,
            None => return Err(SizingError::ArithmeticOverflow),
        },
        None => return Err(SizingError::ArithmeticOverflow),
    };
    Ok(BitRequirement::new(bits))
}

/// Returns the width at which `max_observed_flips` disagreeing bits still
/// leave `required_margin` more agreeing than disagreeing bits.
///
/// This is `2 * max_observed_flips + required_margin`. Under an independent
/// bit-flip model the posterior confidence of the selected value depends only
/// on that margin, so a confidence target fixes the margin and this width
/// meets the target whenever at most `max_observed_flips` bits disagree.
pub fn bits_for_margin(max_observed_flips: usize, required_margin: usize) -> (requirement: Result<
    BitRequirement,
    SizingError,
>)
    ensures
        requirement is Ok <==> 2 * max_observed_flips + required_margin <= usize::MAX,
        requirement matches Ok(r) ==> r.spec_bits() == 2 * max_observed_flips + required_margin,
        requirement matches Err(e) ==> e == SizingError::ArithmeticOverflow,
{
    let base = match max_observed_flips.checked_mul(2) {
        Some(base) => base,
        None => return Err(SizingError::ArithmeticOverflow),
    };
    match base.checked_add(required_margin) {
        Some(bits) => Ok(BitRequirement::new(bits)),
        None => Err(SizingError::ArithmeticOverflow),
    }
}


/// `2 * max_bit_flips + 1` is the smallest width that corrects
/// `max_bit_flips` arbitrary flips: its correction capacity is exactly
/// `max_bit_flips`, and every narrower nonempty width corrects fewer.
pub proof fn lemma_guaranteed_width_is_minimal(max_bit_flips: nat)
    ensures
        correction_capacity((2 * max_bit_flips + 1) as int) == max_bit_flips,
        forall|width: int|
            1 <= width < 2 * max_bit_flips + 1 ==> #[trigger] correction_capacity(width)
                < max_bit_flips,
{
}

} // verus!
