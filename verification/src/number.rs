//! The numbers of the calculator.

use crate::error::{outcome, CalcError, CalcErrorView};
use vstd::prelude::*;

verus! {

/// A number of the calculator: an IEEE 754 double-precision value, held as
/// its 64-bit pattern (sign, eleven bits of exponent, fifty-two of
/// fraction). The library carries numbers and tells whether one is zero;
/// it does no arithmetic on them. Two numbers are equal where their bit
/// patterns are.
#[derive(Clone, Copy, Debug, PartialEq, Eq, Structural)]
pub struct Number {
    pub bits: u64,
}

impl Number {
    /// Whether the number is zero: positive zero, with no bit set, or
    /// negative zero, with the sign bit alone.
    pub open spec fn spec_is_zero(self) -> bool {
        self.bits == 0 || self.bits == 0x8000_0000_0000_0000
    }

    /// The number with the bit pattern `bits`.
    pub fn from_bits(bits: u64) -> (number: Number)
        ensures
            number.bits == bits,
    {
        Number { bits }
    }

    /// The bit pattern of the number.
    pub fn to_bits(self) -> (bits: u64)
        ensures
            bits == self.bits,
    {
        self.bits
    }

    /// What parsing `input` comes to, where `found` is what the parser
    /// found in it: the number, or else the error that holds `input`.
    pub open spec fn parsed(found: Option<Number>, input: Seq<char>) -> Result<
        Number,
        CalcErrorView,
    > {
        match found {
            Some(number) => Ok(number),
            None => Err(CalcErrorView::InvalidNumber(input)),
        }
    }

    /// Takes what a parser found in `input`, the number or `None` where
    /// `input` denotes none, and returns the number, or the error that
    /// holds `input`.
    pub fn from_parsed(found: Option<Number>, input: &str) -> (result: Result<Number, CalcError>)
        ensures
            outcome(result) == Number::parsed(found, input@),
    {
        match found {
            Some(number) => Ok(number),
            None => Err(CalcError::InvalidNumber(input.to_owned())),
        }
    }

    /// Tells whether the number is zero, of either sign.
    #[verifier::when_used_as_spec(spec_is_zero)]
    pub fn is_zero(self) -> (zero: bool)
        ensures
            zero == self.spec_is_zero(),
    {
        self.bits == 0 || self.bits == 0x8000_0000_0000_0000
    }
}

} // verus!
