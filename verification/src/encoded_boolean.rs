use vstd::prelude::*;

use crate::bit_storage::{ones_in, saturate, BitStorage};
use crate::boolean::Boolean;
use crate::decoded_boolean::FlipFreeDecode;
use crate::error::DecodeError;
use crate::prior::PriorSupport;

verus! {

/// The number of `bits` that disagree with the codeword of `value`, whose
/// bits all equal `value`.
pub open spec fn disagreements(bits: Seq<bool>, value: Boolean) -> int {
    if value.as_bool() {
        bits.len() - ones_in(bits)
    } else {
        ones_in(bits) as int
    }
}

/// The number of arbitrary flips that a repetition code of `width` bits
/// corrects for sure: `floor((width - 1) / 2)`, and zero for no bits.
pub open spec fn correction_capacity(width: int) -> int {
    if width <= 0 {
        0
    } else {
        (width - 1) / 2
    }
}

/// A boolean stored as an all-zero or all-one repetition-code word.
///
/// The storage type determines the width. For example, `EncodedBoolean<u64>`
/// has a 64-bit codeword, while `EncodedBoolean<[u8; 17]>` has 136 bits. The
/// representation is transparent to callers through [`Self::storage`] and
/// [`Self::into_storage`], allowing it to be written to existing storage.
#[derive(Clone, Debug, PartialEq, Eq)]
pub struct EncodedBoolean<S> {
    storage: S,
}

impl<S> View for EncodedBoolean<S> {
    type V = S;

    /// The raw codeword storage.
    closed spec fn view(&self) -> S {
        self.storage
    }
}

impl<S> EncodedBoolean<S> {
    /// Wraps a received or manually constructed storage value for decoding.
    pub fn from_storage(storage: S) -> (encoded: Self)
        ensures
            encoded@ == storage,
    {
        EncodedBoolean { storage }
    }

    /// Borrows the raw codeword storage.
    pub fn storage(&self) -> (storage: &S)
        ensures
            *storage == self@,
    {
        &self.storage
    }

    /// Returns the raw codeword storage.
    pub fn into_storage(self) -> (storage: S)
        ensures
            storage == self@,
    {
        self.storage
    }
}

impl<S: BitStorage> EncodedBoolean<S> {
    /// The number of usable bits, as [`Self::bit_len`] reports it.
    pub open spec fn spec_bit_len(&self) -> int {
        saturate(self@.usable_bits().len() as int)
    }

    /// The number of one bits, as [`Self::count_ones`] reports it.
    pub open spec fn spec_count_ones(&self) -> int {
        saturate(ones_in(self@.usable_bits()) as int)
    }

    /// The flip-free decode of this word, as [`Self::decode_without_flips`] returns it.
    pub open spec fn spec_decode_without_flips(&self, support: PriorSupport) -> Result<
        FlipFreeDecode,
        DecodeError,
    > {
        let bits = self.spec_bit_len();
        let ones = self.spec_count_ones();
        if bits == 0 {
            Ok(FlipFreeDecode::NoEvidence)
        } else if ones == 0 && support.false_possible {
            Ok(FlipFreeDecode::False)
        } else if ones == bits && support.true_possible {
            Ok(FlipFreeDecode::True)
        } else {
            Err(DecodeError::ImpossibleObservation { bits: bits as usize, ones: ones as usize })
        }
    }

    /// Returns the number of usable repetition-code bits.
    pub fn bit_len(&self) -> (len: usize)
        ensures
            len == self.spec_bit_len(),
    {
        self.storage.bit_len()
    }

    /// Returns the number of received one bits.
    pub fn count_ones(&self) -> (ones: usize)
        ensures
            ones == self.spec_count_ones(),
            ones <= self.spec_bit_len(),
    {
        proof {
            crate::bit_storage::lemma_ones_in_bounded(self@.usable_bits());
        }
        self.storage.count_ones()
    }

    /// Returns the number of arbitrary bit flips this width corrects for sure.
    ///
    /// This is `floor((bit_len - 1) / 2)`. A zero-bit representation corrects
    /// no errors and has no distinguishable codewords.
    pub fn guaranteed_correction_capacity(&self) -> (flips: usize)
        ensures
            flips == correction_capacity(self.spec_bit_len()),
    {
        self.bit_len().saturating_sub(1) / 2
    }

    /// Decodes under a model in which no bit ever flips.
    ///
    /// The word must then equal the codeword of the original value. An
    /// all-zero word decodes to false and an all-one word to true, each only
    /// where `support` allows that value; any other nonempty word, a mixed one
    /// in particular, is an [`DecodeError::ImpossibleObservation`]. A word
    /// without usable bits carries no evidence.
    pub fn decode_without_flips(&self, support: PriorSupport) -> (decoded: Result<
        FlipFreeDecode,
        DecodeError,
    >)
        ensures
            decoded == self.spec_decode_without_flips(support),
    {
        let bits = self.bit_len();
        let ones = self.count_ones();
        if bits == 0 {
            return Ok(FlipFreeDecode::NoEvidence);
        }
        if ones == 0 {
            return if support.false_possible {
                Ok(FlipFreeDecode::False)
            } else {
                Err(DecodeError::ImpossibleObservation { bits, ones })
            };
        }
        if ones == bits {
            return if support.true_possible {
                Ok(FlipFreeDecode::True)
            } else {
                Err(DecodeError::ImpossibleObservation { bits, ones })
            };
        }
        Err(DecodeError::ImpossibleObservation { bits, ones })
    }
}


/// A repetition code corrects up to its capacity: a nonempty word that disagrees with
/// the codeword of `value` in at most `correction_capacity(bit_len)` bits
/// disagrees with the codeword of the opposite value in strictly more bits, so
/// majority selects `value`. The capacity is the largest such bound: one more
/// disagreement can leave the word at least as close to the opposite codeword.
pub proof fn lemma_capacity_corrects<S: BitStorage>(word: EncodedBoolean<S>, value: Boolean)
    ensures
        disagreements(word@.usable_bits(), value) + disagreements(
            word@.usable_bits(),
            value.spec_opposite(),
        ) == word@.usable_bits().len(),
        word.spec_bit_len() > 0 && disagreements(word@.usable_bits(), value)
            <= correction_capacity(word.spec_bit_len()) ==> disagreements(word@.usable_bits(), value) < disagreements(
            word@.usable_bits(),
            value.spec_opposite(),
        ),
        word.spec_bit_len() > 0 ==> 2 * (correction_capacity(word.spec_bit_len()) + 1)
            >= word.spec_bit_len(),
{
    let bits = word@.usable_bits();
    crate::bit_storage::lemma_ones_in_bounded(bits);
    let width = word.spec_bit_len();
    assert(width <= bits.len());
    let d = disagreements(bits, value);
    if width > 0 && d <= correction_capacity(width) {
        assert(2 * d <= width - 1);
    }
}

/// Encoding and then decoding without flips gives back the encoded value:
/// a nonempty word whose bits all equal `value`, as [`Boolean::encode`]
/// produces it, decodes to `value` wherever the prior allows `value`.
pub proof fn lemma_flip_free_round_trip<S: BitStorage>(
    word: EncodedBoolean<S>,
    value: Boolean,
    support: PriorSupport,
)
    requires
        forall|i: int|
            0 <= i < word@.usable_bits().len() ==> #[trigger] word@.usable_bits()[i]
                == value.as_bool(),
        0 < word@.usable_bits().len() <= usize::MAX,
        match value {
            Boolean::False => support.false_possible,
            Boolean::True => support.true_possible,
        },
    ensures
        word.spec_decode_without_flips(support) == match value {
            Boolean::False => Ok::<FlipFreeDecode, DecodeError>(FlipFreeDecode::False),
            Boolean::True => Ok::<FlipFreeDecode, DecodeError>(FlipFreeDecode::True),
        },
{
    crate::bit_storage::lemma_ones_in_uniform(word@.usable_bits(), value.as_bool());
}

/// Without flips a mixed word, holding both zero and one bits, cannot be
/// explained by any prior: its decode is an impossible observation.
pub proof fn lemma_mixed_word_is_impossible<S: BitStorage>(
    word: EncodedBoolean<S>,
    support: PriorSupport,
)
    requires
        0 < word.spec_count_ones() < word.spec_bit_len(),
    ensures
        word.spec_decode_without_flips(support) == Err::<FlipFreeDecode, DecodeError>(
            DecodeError::ImpossibleObservation {
                bits: word.spec_bit_len() as usize,
                ones: word.spec_count_ones() as usize,
            },
        ),
{
}

} // verus!
