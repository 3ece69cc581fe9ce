use vstd::prelude::*;

verus! {

/// A received word cannot be explained by the supplied model and prior.
#[derive(Clone, Copy, Debug, PartialEq, Eq, Structural)]
pub enum DecodeError {
    /// All candidate original values assign the received word probability zero.
    ImpossibleObservation {
        /// Number of usable bits in the received codeword.
        bits: usize,
        /// Number of one bits in the received codeword.
        ones: usize,
    },
}

/// A sizing request cannot be represented or is not meaningful.
#[derive(Clone, Copy, Debug, PartialEq, Eq, Structural)]
pub enum SizingError {
    /// The requested posterior confidence is not strictly above one half.
    ConfidenceMustExceedOneHalf,
    /// A confidence of one cannot be reached with a nonzero flip probability.
    ConfidenceMustBeLessThanOne,
    /// Confidence sizing needs a nonzero flip probability; use deterministic sizing instead.
    ZeroBitFlipRate,
    /// The result does not fit in `usize`.
    ArithmeticOverflow,
}


/// The decimal digit character for `digit`.
pub open spec fn decimal_digit(digit: nat) -> char {
    (digit + 48) as char
}

/// The decimal representation of `n`, most significant digit first.
pub open spec fn decimal(n: nat) -> Seq<char>
    decreases n,
{
    if n < 10 {
        seq![decimal_digit(n)]
    } else {
        decimal(n / 10) + seq![decimal_digit(n % 10)]
    }
}

/// Returns the decimal digit `digit` as a one-character string.
fn digit_text(digit: usize) -> (text: &'static str)
    requires
        digit < 10,
    ensures
        text@ == seq![decimal_digit(digit as nat)],
{
    match digit {
        0 => {
            proof {
                reveal_strlit("0");
            }
            "0"
        },
        1 => {
            proof {
                reveal_strlit("1");
            }
            "1"
        },
        2 => {
            proof {
                reveal_strlit("2");
            }
            "2"
        },
        3 => {
            proof {
                reveal_strlit("3");
            }
            "3"
        },
        4 => {
            proof {
                reveal_strlit("4");
            }
            "4"
        },
        5 => {
            proof {
                reveal_strlit("5");
            }
            "5"
        },
        6 => {
            proof {
                reveal_strlit("6");
            }
            "6"
        },
        7 => {
            proof {
                reveal_strlit("7");
            }
            "7"
        },
        8 => {
            proof {
                reveal_strlit("8");
            }
            "8"
        },
        _ => {
            proof {
                reveal_strlit("9");
            }
            "9"
        },
    }
}

/// Appends the decimal representation of `n` to `text`.
fn push_decimal(text: &mut String, n: usize)
    ensures
        final(text)@ == old(text)@ + decimal(n as nat),
    decreases n,
{
    if n >= 10 {
        push_decimal(text, n / 10);
    }
    text.append(digit_text(n % 10));
    proof {
        assert(final(text)@ =~= old(text)@ + decimal(n as nat));
    }
}

impl DecodeError {
    /// The human-readable description of this error, as a specification.
    pub open spec fn spec_message(self) -> Seq<char> {
        match self {
            DecodeError::ImpossibleObservation { bits, ones } => "the model and prior cannot explain a "@
                + decimal(bits as nat) + "-bit word containing "@ + decimal(ones as nat)
                + " one bits"@,
        }
    }

    /// Returns a human-readable description of this error.
    pub fn message(&self) -> (text: String)
        ensures
            text@ == self.spec_message(),
    {
        match self {
            DecodeError::ImpossibleObservation { bits, ones } => {
                let mut text = String::new();
                text.append("the model and prior cannot explain a ");
                push_decimal(&mut text, *bits);
                text.append("-bit word containing ");
                push_decimal(&mut text, *ones);
                text.append(" one bits");
                text
            },
        }
    }
}

impl SizingError {
    /// The human-readable description of this error, as a specification.
    pub open spec fn spec_message(self) -> Seq<char> {
        match self {
            SizingError::ConfidenceMustExceedOneHalf => "confidence must be strictly greater than 0.5"@,
            SizingError::ConfidenceMustBeLessThanOne => "confidence must be strictly less than 1.0"@,
            SizingError::ZeroBitFlipRate => "confidence sizing requires a nonzero flip rate; use guaranteed correction sizing"@,
            SizingError::ArithmeticOverflow => "requested bit width overflows usize"@,
        }
    }

    /// Returns a human-readable description of this error.
    pub fn message(&self) -> (text: &'static str)
        ensures
            text@ == self.spec_message(),
    {
        match self {
            SizingError::ConfidenceMustExceedOneHalf => "confidence must be strictly greater than 0.5",
            SizingError::ConfidenceMustBeLessThanOne => "confidence must be strictly less than 1.0",
            SizingError::ZeroBitFlipRate => "confidence sizing requires a nonzero flip rate; use guaranteed correction sizing",
            SizingError::ArithmeticOverflow => "requested bit width overflows usize",
        }
    }
}

} // verus!
