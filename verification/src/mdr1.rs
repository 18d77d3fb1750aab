//! Secondary configuration register.
//!
//! Public representation is the [`Mdr1`] struct. One byte on the wire, with
//! bit 0 the least significant: counter byte-width in bits 1-0, the
//! counting-disabled switch in bit 2, bit 3 reserved, and the four flag
//! enables in bits 4-7 (index, compare, borrow, carry in that order).

use vstd::prelude::*;

use crate::errors::EncoderError;
use crate::traits::{Decodable, Encodable};

verus! {

/// Programmable byte width of the counter register.
#[derive(Clone, Copy, Debug, PartialEq, Eq, Structural)]
pub enum CounterMode {
    /// Four significant counter bytes.
    Byte4,
    /// Three significant counter bytes.
    Byte3,
    /// Two significant counter bytes.
    Byte2,
    /// One significant counter byte.
    Byte1,
}

/// The secondary configuration register: counter width, the counting
/// switch, and the four occurrence-flag enables.
#[derive(Clone, Copy, Debug, PartialEq, Eq, Structural)]
pub struct Mdr1 {
    /// Programmed byte width of the counter register.
    pub counter_mode: CounterMode,
    /// Whether counting is disabled (true) or enabled (false).
    pub disable_counting: bool,
    /// Raise the flag output on an index event.
    pub flag_on_idx: bool,
    /// Raise the flag output on compare (CNTR = DTR).
    pub flag_on_cmp: bool,
    /// Raise the flag output on borrow (counter underflow).
    pub flag_on_bw: bool,
    /// Raise the flag output on carry (counter overflow).
    pub flag_on_cy: bool,
}

impl Encodable for CounterMode {
    open spec fn spec_encode(&self) -> u8 {
        match self {
            CounterMode::Byte4 => 0b00,
            CounterMode::Byte3 => 0b01,
            CounterMode::Byte2 => 0b10,
            CounterMode::Byte1 => 0b11,
        }
    }

    fn encode(&self) -> u8 {
        match self {
            CounterMode::Byte4 => 0b00,
            CounterMode::Byte3 => 0b01,
            CounterMode::Byte2 => 0b10,
            CounterMode::Byte1 => 0b11,
        }
    }
}

impl Decodable for CounterMode {
    open spec fn spec_decode(raw: u8) -> Result<CounterMode, EncoderError> {
        match raw {
            0b00 => Ok(CounterMode::Byte4),
            0b01 => Ok(CounterMode::Byte3),
            0b10 => Ok(CounterMode::Byte2),
            0b11 => Ok(CounterMode::Byte1),
            _ => Err(EncoderError::FailedDecode),
        }
    }

    fn decode(raw: u8) -> Result<CounterMode, EncoderError> {
        match raw {
            0b00 => Ok(CounterMode::Byte4),
            0b01 => Ok(CounterMode::Byte3),
            0b10 => Ok(CounterMode::Byte2),
            0b11 => Ok(CounterMode::Byte1),
            _ => Err(EncoderError::FailedDecode),
        }
    }
}

impl Encodable for Mdr1 {
    open spec fn spec_encode(&self) -> u8 {
        self.counter_mode.spec_encode() | (if self.disable_counting {
            0x04
        } else {
            0
        }) | (if self.flag_on_idx {
            0x10
        } else {
            0
        }) | (if self.flag_on_cmp {
            0x20
        } else {
            0
        }) | (if self.flag_on_bw {
            0x40
        } else {
            0
        }) | (if self.flag_on_cy {
            0x80
        } else {
            0
        })
    }

    fn encode(&self) -> u8 {
        let disable_bit: u8 = if self.disable_counting {
            0x04
        } else {
            0
        };
        let idx_bit: u8 = if self.flag_on_idx {
            0x10
        } else {
            0
        };
        let cmp_bit: u8 = if self.flag_on_cmp {
            0x20
        } else {
            0
        };
        let bw_bit: u8 = if self.flag_on_bw {
            0x40
        } else {
            0
        };
        let cy_bit: u8 = if self.flag_on_cy {
            0x80
        } else {
            0
        };
        self.counter_mode.encode() | disable_bit | idx_bit | cmp_bit | bw_bit | cy_bit
    }
}

impl Decodable for Mdr1 {
    open spec fn spec_decode(raw: u8) -> Result<Mdr1, EncoderError> {
        match CounterMode::spec_decode(raw & 0b11) {
            Ok(counter_mode) => Ok(
                Mdr1 {
                    counter_mode,
                    disable_counting: raw & 0x04 != 0,
                    flag_on_idx: raw & 0x10 != 0,
                    flag_on_cmp: raw & 0x20 != 0,
                    flag_on_bw: raw & 0x40 != 0,
                    flag_on_cy: raw & 0x80 != 0,
                },
            ),
            Err(e) => Err(e),
        }
    }

    fn decode(raw: u8) -> Result<Mdr1, EncoderError> {
        let counter_mode = match CounterMode::decode(raw & 0b11) {
            Ok(counter_mode) => counter_mode,
            Err(e) => {
                return Err(e);
            },
        };
        Ok(
            Mdr1 {
                counter_mode,
                disable_counting: raw & 0x04 != 0,
                flag_on_idx: raw & 0x10 != 0,
                flag_on_cmp: raw & 0x20 != 0,
                flag_on_bw: raw & 0x40 != 0,
                flag_on_cy: raw & 0x80 != 0,
            },
        )
    }
}

/// Decoding a secondary configuration succeeds for every input byte: the
/// 2-bit counter-mode field covers its whole range and the remaining bits
/// are booleans.
pub proof fn lemma_mdr1_decode_total(raw: u8)
    ensures
        Mdr1::spec_decode(raw) is Ok,
{
    assert(raw & 0b11 < 4) by (bit_vector);
}

/// Decoding the byte a secondary configuration encodes to yields that same
/// configuration, for every valid combination of its fields.
pub proof fn lemma_mdr1_round_trip(config: Mdr1)
    ensures
        Mdr1::spec_decode(config.spec_encode()) == Ok::<Mdr1, EncoderError>(config),
{
    let m = config.counter_mode.spec_encode();
    let d: u8 = if config.disable_counting {
        0x04
    } else {
        0
    };
    let i: u8 = if config.flag_on_idx {
        0x10
    } else {
        0
    };
    let c: u8 = if config.flag_on_cmp {
        0x20
    } else {
        0
    };
    let b: u8 = if config.flag_on_bw {
        0x40
    } else {
        0
    };
    let y: u8 = if config.flag_on_cy {
        0x80
    } else {
        0
    };
    assert(m < 4);
    let raw = m | d | i | c | b | y;
    assert(raw & 0b11 == m && (raw & 0x04 != 0) == (d == 0x04) && (raw & 0x10 != 0) == (i == 0x10)
        && (raw & 0x20 != 0) == (c == 0x20) && (raw & 0x40 != 0) == (b == 0x40) && (raw & 0x80 != 0)
        == (y == 0x80)) by (bit_vector)
        requires
            raw == m | d | i | c | b | y,
            m < 4,
            d == 0x04 || d == 0,
            i == 0x10 || i == 0,
            c == 0x20 || c == 0,
            b == 0x40 || b == 0,
            y == 0x80 || y == 0,
    ;
}

} // verus!
