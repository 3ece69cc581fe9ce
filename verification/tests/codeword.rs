use probably_bool::{
    bits_for_guaranteed_correction, bits_for_margin, Boolean, DecodeError, EncodedBoolean,
    FlipFreeDecode, PriorSupport, SizingError, StorageRecommendation,
};

const BOTH: PriorSupport = PriorSupport { false_possible: true, true_possible: true };

#[test]
fn opposite_swaps_the_two_values() {
    assert_eq!(Boolean::False.opposite(), Boolean::True);
    assert_eq!(Boolean::True.opposite(), Boolean::False);
    assert_eq!(Boolean::True.opposite().opposite(), Boolean::True);
    assert_eq!(Boolean::default(), Boolean::False);
    assert!(Boolean::False < Boolean::True);
}

#[test]
fn bool_conversions_round_trip() {
    assert_eq!(Boolean::from(true), Boolean::True);
    assert_eq!(Boolean::from(false), Boolean::False);
    assert!(bool::from(Boolean::True));
    assert!(!bool::from(Boolean::False));
    for flag in [false, true] {
        assert_eq!(bool::from(Boolean::from(flag)), flag);
    }
}

#[test]
fn zero_flip_decoding_rejects_mixed_observations() {
    let received = EncodedBoolean::from_storage(0b1000_0000_u8);
    assert_eq!(
        received.decode_without_flips(BOTH),
        Err(DecodeError::ImpossibleObservation { bits: 8, ones: 1 })
    );
}

#[test]
fn zero_flip_decoding_gives_back_the_encoded_value() {
    let encoded: EncodedBoolean<u32> = Boolean::True.encode();
    assert_eq!(encoded.decode_without_flips(BOTH), Ok(FlipFreeDecode::True));
    let encoded: EncodedBoolean<[u8; 3]> = Boolean::False.encode();
    assert_eq!(encoded.decode_without_flips(BOTH), Ok(FlipFreeDecode::False));
}

#[test]
fn zero_flip_decoding_respects_the_prior_support() {
    let only_true = PriorSupport { false_possible: false, true_possible: true };
    let zeros = EncodedBoolean::from_storage(0u16);
    assert_eq!(
        zeros.decode_without_flips(only_true),
        Err(DecodeError::ImpossibleObservation { bits: 16, ones: 0 })
    );
    let only_false = PriorSupport { false_possible: true, true_possible: false };
    let ones = EncodedBoolean::from_storage(u16::MAX);
    assert_eq!(
        ones.decode_without_flips(only_false),
        Err(DecodeError::ImpossibleObservation { bits: 16, ones: 16 })
    );
    assert_eq!(ones.decode_without_flips(only_true), Ok(FlipFreeDecode::True));
}

#[test]
fn zero_flip_decoding_of_an_empty_word_carries_no_evidence() {
    let empty: [u8; 0] = [];
    let received = EncodedBoolean::from_storage(empty);
    let nothing = PriorSupport { false_possible: false, true_possible: false };
    assert_eq!(received.decode_without_flips(nothing), Ok(FlipFreeDecode::NoEvidence));
}

#[test]
fn correction_capacity_is_half_the_width_rounded_down() {
    assert_eq!(EncodedBoolean::from_storage(0u8).guaranteed_correction_capacity(), 3);
    assert_eq!(EncodedBoolean::from_storage(0u16).guaranteed_correction_capacity(), 7);
    assert_eq!(EncodedBoolean::from_storage([0u8; 7]).guaranteed_correction_capacity(), 27);
    // Three disagreements with the true codeword of a u8 still leave a majority.
    let received = EncodedBoolean::from_storage(u8::MAX ^ 0b0010_0101);
    assert_eq!(received.count_ones(), 5);
}

#[test]
fn guaranteed_sizing_is_two_flips_per_bit_plus_one() {
    let requirement = bits_for_guaranteed_correction(0).unwrap();
    assert_eq!(requirement.bits(), 1);
    assert_eq!(requirement.guaranteed_correction_capacity(), 0);
    let requirement = bits_for_guaranteed_correction(64).unwrap();
    assert_eq!(requirement.bits(), 129);
    assert_eq!(requirement.guaranteed_correction_capacity(), 64);
    assert_eq!(requirement.storage(), StorageRecommendation::ByteArray { bytes: 17 });
    assert_eq!(
        bits_for_guaranteed_correction(usize::MAX / 2 + 1),
        Err(SizingError::ArithmeticOverflow)
    );
    assert_eq!(bits_for_guaranteed_correction(usize::MAX / 2).unwrap().bits(), usize::MAX);
}

#[test]
fn margin_sizing_adds_the_margin_to_twice_the_flips() {
    let requirement = bits_for_margin(3, 1).unwrap();
    assert_eq!(requirement.bits(), 7);
    assert_eq!(requirement.storage(), StorageRecommendation::U8);
    assert_eq!(bits_for_margin(10, 5).unwrap().bits(), 25);
    assert_eq!(bits_for_margin(usize::MAX, 1), Err(SizingError::ArithmeticOverflow));
    assert_eq!(bits_for_margin(1, usize::MAX - 1), Err(SizingError::ArithmeticOverflow));
    assert_eq!(bits_for_margin(1, usize::MAX - 2).unwrap().bits(), usize::MAX);
}

#[test]
fn storage_recommendation_picks_the_narrowest_fit() {
    assert_eq!(StorageRecommendation::for_bits(0), StorageRecommendation::U8);
    assert_eq!(StorageRecommendation::for_bits(8), StorageRecommendation::U8);
    assert_eq!(StorageRecommendation::for_bits(9), StorageRecommendation::U16);
    assert_eq!(StorageRecommendation::for_bits(17), StorageRecommendation::U32);
    assert_eq!(StorageRecommendation::for_bits(64), StorageRecommendation::U64);
    assert_eq!(StorageRecommendation::for_bits(65), StorageRecommendation::U128);
    assert_eq!(StorageRecommendation::for_bits(128), StorageRecommendation::U128);
    assert_eq!(
        StorageRecommendation::for_bits(129),
        StorageRecommendation::ByteArray { bytes: 17 }
    );
    assert_eq!(
        StorageRecommendation::for_bits(136),
        StorageRecommendation::ByteArray { bytes: 17 }
    );
    assert_eq!(
        StorageRecommendation::for_bits(usize::MAX),
        StorageRecommendation::ByteArray { bytes: usize::MAX / 8 + 1 }
    );
}

#[test]
fn storage_recommendation_capacity_holds_the_bits() {
    assert_eq!(StorageRecommendation::U8.capacity_bits(), 8);
    assert_eq!(StorageRecommendation::U16.capacity_bits(), 16);
    assert_eq!(StorageRecommendation::U32.capacity_bits(), 32);
    assert_eq!(StorageRecommendation::U64.capacity_bits(), 64);
    assert_eq!(StorageRecommendation::U128.capacity_bits(), 128);
    assert_eq!(StorageRecommendation::ByteArray { bytes: 17 }.capacity_bits(), 136);
    assert_eq!(
        StorageRecommendation::for_bits(usize::MAX).capacity_bits(),
        usize::MAX
    );
    for bits in 0..300usize {
        let capacity = StorageRecommendation::for_bits(bits).capacity_bits();
        assert!(capacity >= bits);
    }
}

#[test]
fn errors_describe_themselves() {
    let error = DecodeError::ImpossibleObservation { bits: 8, ones: 1 };
    assert_eq!(
        error.message(),
        "the model and prior cannot explain a 8-bit word containing 1 one bits"
    );
    let error = DecodeError::ImpossibleObservation { bits: 1024, ones: 0 };
    assert_eq!(
        error.message(),
        "the model and prior cannot explain a 1024-bit word containing 0 one bits"
    );
    assert_eq!(
        SizingError::ConfidenceMustExceedOneHalf.message(),
        "confidence must be strictly greater than 0.5"
    );
    assert_eq!(
        SizingError::ConfidenceMustBeLessThanOne.message(),
        "confidence must be strictly less than 1.0"
    );
    assert_eq!(
        SizingError::ZeroBitFlipRate.message(),
        "confidence sizing requires a nonzero flip rate; use guaranteed correction sizing"
    );
    assert_eq!(SizingError::ArithmeticOverflow.message(), "requested bit width overflows usize");
}
