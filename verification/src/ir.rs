//! Instruction register.
//!
//! Every transaction against the chip opens with one instruction byte that
//! selects a target register and an action. Bit layout, with bit 0 the least
//! significant: action in bits 7-6, target in bits 5-3, bits 2-0 reserved
//! as zero.

use vstd::prelude::*;

use crate::errors::EncoderError;
use crate::traits::{Decodable, Encodable};

verus! {

/// The register a transaction addresses.
#[derive(Clone, Copy, Debug, PartialEq, Eq, Structural)]
pub enum Target {
    /// Primary configuration register, see [`crate::mdr0::Mdr0`].
    Mdr0,
    /// Secondary configuration register, see [`crate::mdr1::Mdr1`].
    Mdr1,
    /// Input register: written directly, transferred into `Cntr` under
    /// program control or by a hardware index signal.
    Dtr,
    /// The counter itself, loaded from `Dtr` and dumped into `Otr`.
    Cntr,
    /// Output register: a dump site for instantaneous `Cntr` data, readable
    /// without interfering with counting.
    Otr,
    /// Read-only status register, see [`crate::str_register::Str`].
    Str,
    /// No register selected.
    NoRegister,
}

/// What a transaction does to its target register.
#[derive(Clone, Copy, Debug, PartialEq, Eq, Structural)]
pub enum Action {
    Clear,
    Read,
    Write,
    Load,
}

/// The one-byte (target, action) selector that opens every transaction.
#[derive(Clone, Copy, Debug, PartialEq, Eq, Structural)]
pub struct InstructionRegister {
    pub target: Target,
    pub action: Action,
}

impl Encodable for Target {
    open spec fn spec_encode(&self) -> u8 {
        match self {
            Target::Mdr0 => 0b001,
            Target::Mdr1 => 0b010,
            Target::Dtr => 0b011,
            Target::Cntr => 0b100,
            Target::Otr => 0b101,
            Target::Str => 0b110,
            Target::NoRegister => 0b111,
        }
    }

    fn encode(&self) -> u8 {
        match self {
            Target::Mdr0 => 0b001,
            Target::Mdr1 => 0b010,
            Target::Dtr => 0b011,
            Target::Cntr => 0b100,
            Target::Otr => 0b101,
            Target::Str => 0b110,
            Target::NoRegister => 0b111,
        }
    }
}

impl Decodable for Target {
    open spec fn spec_decode(raw: u8) -> Result<Target, EncoderError> {
        match raw {
            0b000 => Ok(Target::NoRegister),
            0b001 => Ok(Target::Mdr0),
            0b010 => Ok(Target::Mdr1),
            0b011 => Ok(Target::Dtr),
            0b100 => Ok(Target::Cntr),
            0b101 => Ok(Target::Otr),
            0b110 => Ok(Target::Str),
            0b111 => Ok(Target::NoRegister),
            _ => Err(EncoderError::FailedDecode),
        }
    }

    fn decode(raw: u8) -> Result<Target, EncoderError> {
        match raw {
            0b000 => Ok(Target::NoRegister),
            0b001 => Ok(Target::Mdr0),
            0b010 => Ok(Target::Mdr1),
            0b011 => Ok(Target::Dtr),
            0b100 => Ok(Target::Cntr),
            0b101 => Ok(Target::Otr),
            0b110 => Ok(Target::Str),
            0b111 => Ok(Target::NoRegister),
            _ => Err(EncoderError::FailedDecode),
        }
    }
}

impl Encodable for Action {
    open spec fn spec_encode(&self) -> u8 {
        match self {
            Action::Clear => 0b00,
            Action::Read => 0b01,
            Action::Write => 0b10,
            Action::Load => 0b11,
        }
    }

    fn encode(&self) -> u8 {
        match self {
            Action::Clear => 0b00,
            Action::Read => 0b01,
            Action::Write => 0b10,
            Action::Load => 0b11,
        }
    }
}

impl Decodable for Action {
    open spec fn spec_decode(raw: u8) -> Result<Action, EncoderError> {
        match raw {
            0b00 => Ok(Action::Clear),
            0b01 => Ok(Action::Read),
            0b10 => Ok(Action::Write),
            0b11 => Ok(Action::Load),
            _ => Err(EncoderError::FailedDecode),
        }
    }

    fn decode(raw: u8) -> Result<Action, EncoderError> {
        match raw {
            0b00 => Ok(Action::Clear),
            0b01 => Ok(Action::Read),
            0b10 => Ok(Action::Write),
            0b11 => Ok(Action::Load),
            _ => Err(EncoderError::FailedDecode),
        }
    }
}

impl Encodable for InstructionRegister {
    open spec fn spec_encode(&self) -> u8 {
        (self.action.spec_encode() << 6) | (self.target.spec_encode() << 3)
    }

    fn encode(&self) -> u8 {
        (self.action.encode() << 6) | (self.target.encode() << 3)
    }
}

impl Decodable for InstructionRegister {
    open spec fn spec_decode(raw: u8) -> Result<InstructionRegister, EncoderError> {
        match (Target::spec_decode((raw >> 3) & 0b111), Action::spec_decode((raw >> 6) & 0b11)) {
            (Ok(target), Ok(action)) => Ok(InstructionRegister { target, action }),
            (Err(e), _) => Err(e),
            (_, Err(e)) => Err(e),
        }
    }

    fn decode(raw: u8) -> Result<InstructionRegister, EncoderError> {
        let target = match Target::decode((raw >> 3) & 0b111) {
            Ok(target) => target,
            Err(e) => {
                return Err(e);
            },
        };
        let action = match Action::decode((raw >> 6) & 0b11) {
            Ok(action) => action,
            Err(e) => {
                return Err(e);
            },
        };
        Ok(InstructionRegister { target, action })
    }
}

/// Decoding an instruction register succeeds for every input byte: the
/// 3-bit target field and the 2-bit action field each cover their whole
/// range.
pub proof fn lemma_instruction_register_decode_total(raw: u8)
    ensures
        InstructionRegister::spec_decode(raw) is Ok,
{
    assert((raw >> 3) & 0b111 < 8 && (raw >> 6) & 0b11 < 4) by (bit_vector);
}

/// Decoding the byte an instruction register encodes to yields that same
/// instruction register, for every (target, action) pair.
pub proof fn lemma_instruction_register_round_trip(ir: InstructionRegister)
    ensures
        InstructionRegister::spec_decode(ir.spec_encode()) == Ok::<InstructionRegister, EncoderError>(ir),
{
    let a = ir.action.spec_encode();
    let t = ir.target.spec_encode();
    assert(a < 4 && 1 <= t < 8);
    assert((((a << 6) | (t << 3)) >> 3) & 0b111 == t && (((a << 6) | (t << 3)) >> 6) & 0b11 == a)
        by (bit_vector)
        requires
            a < 4,
            t < 8,
    ;
}

} // verus!
