//! Primary configuration register.
//!
//! Public representation is the [`Mdr0`] struct. One byte on the wire, with
//! bit 0 the least significant: quadrature count mode in bits 1-0, cycle
//! count mode in bits 3-2, index mode in bits 5-4, index inversion in bit 6,
//! filter clock division factor in bit 7.

use vstd::prelude::*;

use crate::errors::EncoderError;
use crate::traits::{Decodable, Encodable};

verus! {

/// How many counter increments register per quadrature encoder cycle.
#[derive(Clone, Copy, Debug, PartialEq, Eq, Structural)]
pub enum QuadCountMode {
    /// Non-quadrature count mode (free choice of count input).
    NonQuad,
    /// One count per quadrature cycle.
    Quad1x,
    /// Two counts per quadrature cycle.
    Quad2x,
    /// Four counts per quadrature cycle.
    Quad4x,
}

/// Behavior of the `Index` pin on the chip.
#[derive(Clone, Copy, Debug, PartialEq, Eq, Structural)]
pub enum IndexMode {
    /// Disables input on the index pin.
    DisableIndex,
    /// Index acts as the "load CNTR" input (transfers DTR to CNTR).
    LoadCntr,
    /// Index acts as the "reset CNTR" input (clears CNTR to zero).
    ClearCntr,
    /// Index acts as the "load OTR" input (transfers CNTR to OTR).
    LoadOtr,
}

/// How the counter cycles.
#[derive(Clone, Copy, Debug, PartialEq, Eq, Structural)]
pub enum CycleCountMode {
    /// Free running count mode.
    FreeRunning,
    /// Single-cycle count mode: the counter disables on carry or borrow and
    /// re-enables on reset or load.
    SingleCycle,
    /// Range-limit count mode: the count range is limited between DTR and
    /// zero; counting freezes at the limits and resumes on reversal.
    RangeLimit,
    /// Modulo-N count mode: the input clock frequency is divided by a factor
    /// of (n + 1), where n is the DTR value, in both directions.
    ModuloN,
}

/// Division factor of the filter clock used to validate index inputs.
#[derive(Clone, Copy, Debug, PartialEq, Eq, Structural)]
pub enum FilterClockDivisionFactor {
    /// Filter clock division factor of 1.
    One,
    /// Filter clock division factor of 2.
    Two,
}

/// The primary configuration register.
#[derive(Clone, Copy, Debug, PartialEq, Eq, Structural)]
pub struct Mdr0 {
    /// Quadrature count mode.
    pub quad_count_mode: QuadCountMode,
    /// Cycle behavior of the counter.
    pub cycle_count_mode: CycleCountMode,
    /// Behavior of the index pin.
    pub index_mode: IndexMode,
    /// Whether the index pin is treated as inverted.
    pub is_index_inverted: bool,
    /// Frequency of the index filter clock.
    pub filter_clock: FilterClockDivisionFactor,
}

impl Encodable for QuadCountMode {
    open spec fn spec_encode(&self) -> u8 {
        match self {
            QuadCountMode::NonQuad => 0b00,
            QuadCountMode::Quad1x => 0b01,
            QuadCountMode::Quad2x => 0b10,
            QuadCountMode::Quad4x => 0b11,
        }
    }

    fn encode(&self) -> u8 {
        match self {
            QuadCountMode::NonQuad => 0b00,
            QuadCountMode::Quad1x => 0b01,
            QuadCountMode::Quad2x => 0b10,
            QuadCountMode::Quad4x => 0b11,
        }
    }
}

impl Decodable for QuadCountMode {
    open spec fn spec_decode(raw: u8) -> Result<QuadCountMode, EncoderError> {
        match raw {
            0b00 => Ok(QuadCountMode::NonQuad),
            0b01 => Ok(QuadCountMode::Quad1x),
            0b10 => Ok(QuadCountMode::Quad2x),
            0b11 => Ok(QuadCountMode::Quad4x),
            _ => Err(EncoderError::FailedDecode),
        }
    }

    fn decode(raw: u8) -> Result<QuadCountMode, EncoderError> {
        match raw {
            0b00 => Ok(QuadCountMode::NonQuad),
            0b01 => Ok(QuadCountMode::Quad1x),
            0b10 => Ok(QuadCountMode::Quad2x),
            0b11 => Ok(QuadCountMode::Quad4x),
            _ => Err(EncoderError::FailedDecode),
        }
    }
}

impl Encodable for IndexMode {
    open spec fn spec_encode(&self) -> u8 {
        match self {
            IndexMode::DisableIndex => 0b00,
            IndexMode::LoadCntr => 0b01,
            IndexMode::ClearCntr => 0b10,
            IndexMode::LoadOtr => 0b11,
        }
    }

    fn encode(&self) -> u8 {
        match self {
            IndexMode::DisableIndex => 0b00,
            IndexMode::LoadCntr => 0b01,
            IndexMode::ClearCntr => 0b10,
            IndexMode::LoadOtr => 0b11,
        }
    }
}

impl Decodable for IndexMode {
    open spec fn spec_decode(raw: u8) -> Result<IndexMode, EncoderError> {
        match raw {
            0b00 => Ok(IndexMode::DisableIndex),
            0b01 => Ok(IndexMode::LoadCntr),
            0b10 => Ok(IndexMode::ClearCntr),
            0b11 => Ok(IndexMode::LoadOtr),
            _ => Err(EncoderError::FailedDecode),
        }
    }

    fn decode(raw: u8) -> Result<IndexMode, EncoderError> {
        match raw {
            0b00 => Ok(IndexMode::DisableIndex),
            0b01 => Ok(IndexMode::LoadCntr),
            0b10 => Ok(IndexMode::ClearCntr),
            0b11 => Ok(IndexMode::LoadOtr),
            _ => Err(EncoderError::FailedDecode),
        }
    }
}

impl Encodable for CycleCountMode {
    open spec fn spec_encode(&self) -> u8 {
        match self {
            CycleCountMode::FreeRunning => 0b00,
            CycleCountMode::SingleCycle => 0b01,
            CycleCountMode::RangeLimit => 0b10,
            CycleCountMode::ModuloN => 0b11,
        }
    }

    fn encode(&self) -> u8 {
        match self {
            CycleCountMode::FreeRunning => 0b00,
            CycleCountMode::SingleCycle => 0b01,
            CycleCountMode::RangeLimit => 0b10,
            CycleCountMode::ModuloN => 0b11,
        }
    }
}

impl Decodable for CycleCountMode {
    open spec fn spec_decode(raw: u8) -> Result<CycleCountMode, EncoderError> {
        match raw {
            0b00 => Ok(CycleCountMode::FreeRunning),
            0b01 => Ok(CycleCountMode::SingleCycle),
            0b10 => Ok(CycleCountMode::RangeLimit),
            0b11 => Ok(CycleCountMode::ModuloN),
            _ => Err(EncoderError::FailedDecode),
        }
    }

    fn decode(raw: u8) -> Result<CycleCountMode, EncoderError> {
        match raw {
            0b00 => Ok(CycleCountMode::FreeRunning),
            0b01 => Ok(CycleCountMode::SingleCycle),
            0b10 => Ok(CycleCountMode::RangeLimit),
            0b11 => Ok(CycleCountMode::ModuloN),
            _ => Err(EncoderError::FailedDecode),
        }
    }
}

impl Encodable for FilterClockDivisionFactor {
    open spec fn spec_encode(&self) -> u8 {
        match self {
            FilterClockDivisionFactor::One => 0b0,
            FilterClockDivisionFactor::Two => 0b1,
        }
    }

    fn encode(&self) -> u8 {
        match self {
            FilterClockDivisionFactor::One => 0b0,
            FilterClockDivisionFactor::Two => 0b1,
        }
    }
}

impl FilterClockDivisionFactor {
    /// The factor a raw filter clock bit selects.
    pub open spec fn spec_decode(raw: bool) -> FilterClockDivisionFactor {
        if raw {
            FilterClockDivisionFactor::Two
        } else {
            FilterClockDivisionFactor::One
        }
    }

    /// Unpacks the filter clock bit.
    pub fn decode(raw: bool) -> (r: Result<FilterClockDivisionFactor, EncoderError>)
        ensures
            r == Ok::<FilterClockDivisionFactor, EncoderError>(Self::spec_decode(raw)),
    {
        match raw {
            false => Ok(FilterClockDivisionFactor::One),
            true => Ok(FilterClockDivisionFactor::Two),
        }
    }
}

impl Encodable for Mdr0 {
    open spec fn spec_encode(&self) -> u8 {
        self.quad_count_mode.spec_encode() | (self.cycle_count_mode.spec_encode() << 2)
            | (self.index_mode.spec_encode() << 4) | (if self.is_index_inverted {
            0x40
        } else {
            0
        }) | (if self.filter_clock == FilterClockDivisionFactor::Two {
            0x80
        } else {
            0
        })
    }

    fn encode(&self) -> u8 {
        let inverted_bit: u8 = if self.is_index_inverted {
            0x40
        } else {
            0
        };
        let filter_bit: u8 = match self.filter_clock {
            FilterClockDivisionFactor::One => 0,
            FilterClockDivisionFactor::Two => 0x80,
        };
        self.quad_count_mode.encode() | (self.cycle_count_mode.encode() << 2) | (
        self.index_mode.encode() << 4) | inverted_bit | filter_bit
    }
}

impl Decodable for Mdr0 {
    open spec fn spec_decode(raw: u8) -> Result<Mdr0, EncoderError> {
        match (
            QuadCountMode::spec_decode(raw & 0b11),
            CycleCountMode::spec_decode((raw >> 2) & 0b11),
            IndexMode::spec_decode((raw >> 4) & 0b11),
        ) {
            (Ok(quad_count_mode), Ok(cycle_count_mode), Ok(index_mode)) => Ok(
                Mdr0 {
                    quad_count_mode,
                    cycle_count_mode,
                    index_mode,
                    is_index_inverted: raw & 0x40 != 0,
                    filter_clock: FilterClockDivisionFactor::spec_decode(raw & 0x80 != 0),
                },
            ),
            (Err(e), _, _) => Err(e),
            (_, Err(e), _) => Err(e),
            (_, _, Err(e)) => Err(e),
        }
    }

    fn decode(raw: u8) -> Result<Mdr0, EncoderError> {
        let quad_count_mode = match QuadCountMode::decode(raw & 0b11) {
            Ok(quad_count_mode) => quad_count_mode,
            Err(e) => {
                return Err(e);
            },
        };
        let cycle_count_mode = match CycleCountMode::decode((raw >> 2) & 0b11) {
            Ok(cycle_count_mode) => cycle_count_mode,
            Err(e) => {
                return Err(e);
            },
        };
        let index_mode = match IndexMode::decode((raw >> 4) & 0b11) {
            Ok(index_mode) => index_mode,
            Err(e) => {
                return Err(e);
            },
        };
        let filter_clock = match FilterClockDivisionFactor::decode(raw & 0x80 != 0) {
            Ok(filter_clock) => filter_clock,
            Err(e) => {
                return Err(e);
            },
        };
        Ok(
            Mdr0 {
                quad_count_mode,
                cycle_count_mode,
                index_mode,
                is_index_inverted: raw & 0x40 != 0,
                filter_clock,
            },
        )
    }
}

/// Decoding a primary configuration succeeds for every input byte: each
/// 2-bit field covers its whole range and the remaining bits are booleans.
pub proof fn lemma_mdr0_decode_total(raw: u8)
    ensures
        Mdr0::spec_decode(raw) is Ok,
{
    assert(raw & 0b11 < 4 && (raw >> 2) & 0b11 < 4 && (raw >> 4) & 0b11 < 4) by (bit_vector);
}

/// Decoding the byte a primary configuration encodes to yields that same
/// configuration, for every valid combination of its fields.
pub proof fn lemma_mdr0_round_trip(config: Mdr0)
    ensures
        Mdr0::spec_decode(config.spec_encode()) == Ok::<Mdr0, EncoderError>(config),
{
    let q = config.quad_count_mode.spec_encode();
    let c = config.cycle_count_mode.spec_encode();
    let i = config.index_mode.spec_encode();
    let v: u8 = if config.is_index_inverted {
        0x40
    } else {
        0
    };
    let f: u8 = if config.filter_clock == FilterClockDivisionFactor::Two {
        0x80
    } else {
        0
    };
    assert(q < 4 && c < 4 && i < 4 && (v == 0x40 || v == 0) && (f == 0x80 || f == 0));
    let raw = q | (c << 2) | (i << 4) | v | f;
    assert(raw & 0b11 == q && (raw >> 2) & 0b11 == c && (raw >> 4) & 0b11 == i && (raw & 0x40 != 0)
        == (v == 0x40) && (raw & 0x80 != 0) == (f == 0x80)) by (bit_vector)
        requires
            raw == q | (c << 2) | (i << 4) | v | f,
            q < 4,
            c < 4,
            i < 4,
            v == 0x40 || v == 0,
            f == 0x80 || f == 0,
    ;
}

} // verus!
