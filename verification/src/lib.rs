//! A bit-flip-resilient boolean stored as a repetition code.
//!
//! A [`Boolean`] is encoded as an all-zero or all-one codeword in a caller
//! selected [`BitStorage`] implementation. For one logical bit this gives the
//! maximum possible Hamming distance for a chosen width, and therefore corrects
//! the most arbitrary flips possible at that width: a width of
//! `2 * flips + 1` corrects any pattern of at most `flips` errors.
//!
//! Use [`bits_for_guaranteed_correction`] for an adversarial bound, and
//! [`bits_for_margin`] once a confidence target has been turned into the
//! margin of agreeing over disagreeing bits that it needs.
mod bit_storage;
mod boolean;
mod decoded_boolean;
mod encoded_boolean;
mod error;
mod prior;
mod sizing;
mod storage_recommendation;

pub use bit_storage::BitStorage;
pub use boolean::Boolean;
pub use decoded_boolean::FlipFreeDecode;
pub use encoded_boolean::EncodedBoolean;
pub use error::{DecodeError, SizingError};
pub use prior::PriorSupport;
pub use sizing::{bits_for_guaranteed_correction, bits_for_margin, BitRequirement};
pub use storage_recommendation::StorageRecommendation;
