use probably_bool::{
    bits_for_guaranteed_correction, BitStorage, Boolean, EncodedBoolean, StorageRecommendation,
};

#[test]
fn deterministic_sizing_identifies_seven_bits_for_three_flips() {
    let requirement = bits_for_guaranteed_correction(3).unwrap();

    assert_eq!(requirement.bits(), 7);
    assert_eq!(requirement.guaranteed_correction_capacity(), 3);
    assert_eq!(requirement.storage(), StorageRecommendation::U8);
}

#[test]
fn supports_array_backed_codewords() {
    let encoded: EncodedBoolean<[u8; 32]> = Boolean::False.encode();
    assert_eq!(encoded.bit_len(), 256);
    assert_eq!(encoded.guaranteed_correction_capacity(), 127);
    assert_eq!(encoded.count_ones(), 0);
}

#[test]
fn every_integer_width_encodes_all_zero_and_all_one_codewords() {
    assert_eq!(Boolean::False.encode::<u8>().into_storage(), 0);
    assert_eq!(Boolean::True.encode::<u8>().into_storage(), u8::MAX);
    assert_eq!(Boolean::False.encode::<u16>().into_storage(), 0);
    assert_eq!(Boolean::True.encode::<u16>().into_storage(), u16::MAX);
    assert_eq!(Boolean::False.encode::<u32>().into_storage(), 0);
    assert_eq!(Boolean::True.encode::<u32>().into_storage(), u32::MAX);
    assert_eq!(Boolean::False.encode::<u64>().into_storage(), 0);
    assert_eq!(Boolean::True.encode::<u64>().into_storage(), u64::MAX);
    assert_eq!(Boolean::False.encode::<u128>().into_storage(), 0);
    assert_eq!(Boolean::True.encode::<u128>().into_storage(), u128::MAX);
}

#[test]
fn integer_storage_counts_every_usable_bit() {
    for value in u8::MIN..=u8::MAX {
        assert_eq!(BitStorage::count_ones(&value), value.count_ones() as usize);
        assert_eq!(BitStorage::bit_len(&value), 8);
    }
    let samples: [u128; 5] = [0, 1, 0x8000_0000_0000_0000_0000_0000_0000_0001, u128::MAX, 0x0f0f];
    for value in samples {
        assert_eq!(BitStorage::count_ones(&value), value.count_ones() as usize);
        assert_eq!(BitStorage::count_ones(&(value as u64)), (value as u64).count_ones() as usize);
        assert_eq!(BitStorage::count_ones(&(value as u32)), (value as u32).count_ones() as usize);
        assert_eq!(BitStorage::count_ones(&(value as u16)), (value as u16).count_ones() as usize);
    }
    assert_eq!(BitStorage::bit_len(&0u16), 16);
    assert_eq!(BitStorage::bit_len(&0u32), 32);
    assert_eq!(BitStorage::bit_len(&0u64), 64);
    assert_eq!(BitStorage::bit_len(&0u128), 128);
}

#[test]
fn array_storage_counts_across_words() {
    let words: [u16; 3] = [0b1011, 0xffff, 0];
    assert_eq!(BitStorage::bit_len(&words), 48);
    assert_eq!(BitStorage::count_ones(&words), 19);

    let encoded: EncodedBoolean<[u128; 4]> = Boolean::True.encode();
    assert_eq!(encoded.bit_len(), 512);
    assert_eq!(encoded.count_ones(), 512);
    assert_eq!(encoded.guaranteed_correction_capacity(), 255);

    let empty: [u64; 0] = [];
    assert_eq!(BitStorage::bit_len(&empty), 0);
    assert_eq!(BitStorage::count_ones(&empty), 0);
    let encoded = EncodedBoolean::from_storage(empty);
    assert_eq!(encoded.guaranteed_correction_capacity(), 0);

    let encoded: EncodedBoolean<[u32; 2]> = Boolean::True.encode();
    assert_eq!(encoded.storage(), &[u32::MAX, u32::MAX]);
    let encoded: EncodedBoolean<[u8; 5]> = Boolean::False.encode();
    assert_eq!(encoded.into_storage(), [0u8; 5]);
}
