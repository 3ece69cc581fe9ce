use vstd::prelude::*;

use vstd::std_specs::convert::FromSpec;

use crate::bit_storage::BitStorage;
use crate::encoded_boolean::{disagreements, EncodedBoolean};

verus! {

/// A logical boolean independent of its fault-tolerant representation.
#[derive(Clone, Copy, Debug, PartialEq, Eq, Structural, Hash, PartialOrd, Ord)]
pub enum Boolean {
    /// The logical false value.
    False,
    /// The logical true value.
    True,
}

impl Boolean {
    /// The value as a mathematical boolean.
    pub open spec fn as_bool(self) -> bool {
        self is True
    }

    /// The opposite value, as a specification.
    pub open spec fn spec_opposite(self) -> Boolean {
        match self {
            Boolean::False => Boolean::True,
            Boolean::True => Boolean::False,
        }
    }

    /// Encodes this value by filling every usable bit of `S` with this value.
    ///
    /// `u64` produces a 64-bit codeword; `[u8; 32]` produces a 256-bit
    /// codeword. A wider codeword has a larger correction guarantee.
    pub fn encode<S: BitStorage>(self) -> (encoded: EncodedBoolean<S>)
        ensures
            forall|i: int|
                0 <= i < encoded@.usable_bits().len() ==> #[trigger] encoded@.usable_bits()[i]
                    == self.as_bool(),
            disagreements(encoded@.usable_bits(), self) == 0,
            disagreements(encoded@.usable_bits(), self.spec_opposite())
                == encoded@.usable_bits().len(),
    {
        let encoded = EncodedBoolean::from_storage(S::filled(self));
        proof {
            crate::bit_storage::lemma_ones_in_uniform(encoded@.usable_bits(), self.as_bool());
        }
        encoded
    }

    /// Returns the opposite boolean value.
    pub fn opposite(self) -> (r: Self)
        ensures
            r == self.spec_opposite(),
            r.as_bool() == !self.as_bool(),
    {
        match self {
            Boolean::False => Boolean::True,
            Boolean::True => Boolean::False,
        }
    }
}


impl Default for Boolean {
    /// The default value is false.
    fn default() -> (value: Self)
        ensures
            value == Boolean::False,
    {
        Boolean::False
    }
}

impl From<bool> for Boolean {
    fn from(value: bool) -> (converted: Self) {
        if value {
            Boolean::True
        } else {
            Boolean::False
        }
    }
}

impl vstd::std_specs::convert::FromSpecImpl<bool> for Boolean {
    open spec fn obeys_from_spec() -> bool {
        true
    }

    open spec fn from_spec(value: bool) -> Self {
        if value {
            Boolean::True
        } else {
            Boolean::False
        }
    }
}

impl From<Boolean> for bool {
    fn from(value: Boolean) -> (converted: Self) {
        match value {
            Boolean::False => false,
            Boolean::True => true,
        }
    }
}

impl vstd::std_specs::convert::FromSpecImpl<Boolean> for bool {
    open spec fn obeys_from_spec() -> bool {
        true
    }

    open spec fn from_spec(value: Boolean) -> Self {
        value.as_bool()
    }
}


/// Taking the opposite twice gives back the value, and a value is never its own opposite.
pub proof fn lemma_opposite_involution(value: Boolean)
    ensures
        value.spec_opposite().spec_opposite() == value,
        value.spec_opposite() != value,
{
}

/// Converting a `bool` to a [`Boolean`] and back, or a [`Boolean`] to a
/// `bool` and back, gives back the value.
pub proof fn lemma_bool_round_trip(flag: bool, value: Boolean)
    ensures
        <bool as FromSpec<Boolean>>::from_spec(<Boolean as FromSpec<bool>>::from_spec(flag))
            == flag,
        <Boolean as FromSpec<bool>>::from_spec(<bool as FromSpec<Boolean>>::from_spec(value))
            == value,
{
}

} // verus!
