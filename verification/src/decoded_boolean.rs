use vstd::prelude::*;

verus! {

/// The result of decoding under a model in which no bit ever flips.
///
/// Without flips the received word must equal the codeword of the original
/// value, so a nonempty word is either decided exactly or impossible.
#[derive(Clone, Copy, Debug, PartialEq, Eq, Structural)]
pub enum FlipFreeDecode {
    /// The word has no usable bits: it carries no evidence, and the prior alone decides.
    NoEvidence,
    /// The word is the all-zero codeword: the original value was false for certain.
    False,
    /// The word is the all-one codeword: the original value was true for certain.
    True,
}

} // verus!
