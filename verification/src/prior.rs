use vstd::prelude::*;

verus! {

/// Which original values a prior distribution over [`Boolean`] allows at all.
///
/// This is the support of the prior: a value is possible exactly when its
/// prior probability is not zero. It is all that decoding reads of a prior
/// under a model in which no bit flips.
#[derive(Clone, Copy, Debug, PartialEq, Eq, Structural)]
pub struct PriorSupport {
    /// The prior probability of false is not zero.
    pub false_possible: bool,
    /// The prior probability of true is not zero.
    pub true_possible: bool,
}

} // verus!
