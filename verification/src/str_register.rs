//! Status register.
//!
//! The Str register houses the chip's status and is read only. One byte on
//! the wire, with bit 0 the least significant: sign in bit 0, count
//! direction in bit 1, power-loss latch in bit 2, counting-enabled in bit 3,
//! and the index, compare, borrow and carry latches in bits 4-7. Every bit
//! maps to a boolean or a two-valued enumeration, so decoding succeeds for
//! any input byte.

use vstd::prelude::*;

use crate::errors::EncoderError;
use crate::traits::Decodable;

verus! {

/// The sign of the counter's contents.
#[derive(Clone, Copy, Debug, PartialEq, Eq, Structural)]
pub enum SignBit {
    Negative,
    Positive,
}

/// Counting direction, corresponding to the motion of the attached encoder.
#[derive(Clone, Copy, Debug, PartialEq, Eq, Structural)]
pub enum Direction {
    Up,
    Down,
}

/// A decoded snapshot of the status register.
#[derive(Clone, Copy, Debug, PartialEq, Eq, Structural)]
pub struct Str {
    /// Carry (counter overflow) latch.
    pub cary: bool,
    /// Borrow (counter underflow) latch.
    pub borrow: bool,
    /// Compare (CNTR = DTR) latch.
    pub compare: bool,
    /// Index latch.
    pub index: bool,
    /// Whether counting is currently enabled.
    pub count_enabled: bool,
    /// Power-loss latch, set when power comes on.
    pub power_loss: bool,
    /// Direction of the count.
    pub count_direction: Direction,
    /// Sign of the counter register's contents.
    pub sign_bit: SignBit,
}

impl SignBit {
    /// The sign a raw status bit selects.
    pub open spec fn spec_decode(raw: bool) -> SignBit {
        if raw {
            SignBit::Negative
        } else {
            SignBit::Positive
        }
    }

    /// Unpacks the sign bit.
    pub fn decode(raw: bool) -> (r: Result<SignBit, EncoderError>)
        ensures
            r == Ok::<SignBit, EncoderError>(Self::spec_decode(raw)),
    {
        match raw {
            true => Ok(SignBit::Negative),
            false => Ok(SignBit::Positive),
        }
    }
}

impl Direction {
    /// The direction a raw status bit selects.
    pub open spec fn spec_decode(raw: bool) -> Direction {
        if raw {
            Direction::Up
        } else {
            Direction::Down
        }
    }

    /// Unpacks the count direction bit.
    pub fn decode(raw: bool) -> (r: Result<Direction, EncoderError>)
        ensures
            r == Ok::<Direction, EncoderError>(Self::spec_decode(raw)),
    {
        match raw {
            false => Ok(Direction::Down),
            true => Ok(Direction::Up),
        }
    }
}

/// The status snapshot a raw status byte decodes to.
pub open spec fn str_of_byte(raw: u8) -> Str {
    Str {
        sign_bit: SignBit::spec_decode(raw & 0x01 != 0),
        count_direction: Direction::spec_decode(raw & 0x02 != 0),
        power_loss: raw & 0x04 != 0,
        count_enabled: raw & 0x08 != 0,
        index: raw & 0x10 != 0,
        compare: raw & 0x20 != 0,
        borrow: raw & 0x40 != 0,
        cary: raw & 0x80 != 0,
    }
}

/// Decoding a status byte always succeeds: every bit position maps to a
/// boolean or a two-valued enumeration, so the error case exists only for
/// symmetry with the other codecs.
pub proof fn lemma_str_decode_total(raw: u8)
    ensures
        Str::spec_decode(raw) == Ok::<Str, EncoderError>(str_of_byte(raw)),
{
}

impl Decodable for Str {
    open spec fn spec_decode(raw: u8) -> Result<Str, EncoderError> {
        Ok(str_of_byte(raw))
    }

    fn decode(raw: u8) -> Result<Str, EncoderError> {
        let sign_bit = match SignBit::decode(raw & 0x01 != 0) {
            Ok(sign_bit) => sign_bit,
            Err(e) => {
                return Err(e);
            },
        };
        let count_direction = match Direction::decode(raw & 0x02 != 0) {
            Ok(count_direction) => count_direction,
            Err(e) => {
                return Err(e);
            },
        };
        Ok(
            Str {
                sign_bit,
                count_direction,
                power_loss: raw & 0x04 != 0,
                count_enabled: raw & 0x08 != 0,
                index: raw & 0x10 != 0,
                compare: raw & 0x20 != 0,
                borrow: raw & 0x40 != 0,
                cary: raw & 0x80 != 0,
            },
        )
    }
}

} // verus!
