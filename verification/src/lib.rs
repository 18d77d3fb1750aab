//! Driver for the LS7366 quadrature encoder buffer.
//!
//! The chip is addressed over a 4-wire synchronous serial bus. Every
//! transaction opens with a one-byte instruction header selecting a target
//! register and an action (clear / read / write / load), optionally followed
//! by a payload of up to four bytes. This crate holds the bit-exact codecs
//! for the header and the configuration and status registers, and the driver
//! that turns a logical register operation into the fixed-shape byte
//! sequence exchanged on the bus.
//!
//! The bus itself is an external collaborator: the driver asks for a
//! [`Transport`] with exactly two operations, write a buffer and transfer a
//! buffer (write while capturing the same number of response bytes). Every
//! driver contract speaks about the sequence of exchanges the transport has
//! completed, so what each operation puts on the wire is pinned down
//! bit-exactly.

use vstd::prelude::*;

pub use crate::ir::{Action, Target};
pub use crate::traits::{Decodable, Encodable};

use crate::errors::EncoderError;
use crate::ir::InstructionRegister;
use crate::mdr0::{CycleCountMode, FilterClockDivisionFactor, IndexMode, Mdr0, QuadCountMode};
use crate::mdr1::{CounterMode, Mdr1};
use crate::str_register::{str_of_byte, SignBit, Str};
use crate::utilities::{be_value, lemma_be_value_bound, pow256, vec_to_i64};

pub mod errors;
pub mod ir;
pub mod mdr0;
pub mod mdr1;
pub mod str_register;
pub mod traits;
pub mod utilities;

verus! {

/// One exchange completed on the bus: bytes clocked out with the response
/// ignored, or bytes clocked out while the same number of response bytes
/// were captured.
pub enum BusOp {
    /// Bytes clocked out, response ignored.
    Write { bytes: Seq<u8> },
    /// Bytes clocked out while the same number of bytes were clocked in.
    Transfer { sent: Seq<u8>, received: Seq<u8> },
}

impl BusOp {
    /// The bytes this exchange clocked out.
    pub open spec fn sent_bytes(self) -> Seq<u8> {
        match self {
            BusOp::Write { bytes } => bytes,
            BusOp::Transfer { sent, .. } => sent,
        }
    }

    /// The bytes this exchange captured (empty for a plain write).
    pub open spec fn response_bytes(self) -> Seq<u8> {
        match self {
            BusOp::Write { .. } => Seq::empty(),
            BusOp::Transfer { received, .. } => received,
        }
    }
}

/// The bus capability the driver consumes. Implementations live outside
/// this crate (a concrete serial peripheral); their conformance to these
/// contracts is not checked here, it is the interface the driver assumes.
///
/// The history is the sequence of exchanges the transport has completed,
/// oldest first; a failed exchange is not recorded.
pub trait Transport: Sized {
    /// The transport's own failure type, surfaced unchanged by the driver.
    type TransportError;

    /// The exchanges this transport has completed on the bus, oldest first.
    /// The default leaves the history unspecified; what the driver proves
    /// rests only on how the two operations below extend it.
    open spec fn history(&self) -> Seq<BusOp> {
        arbitrary()
    }

    /// Clocks out `data`, ignoring whatever is clocked in simultaneously.
    fn write_bytes(&mut self, data: &Vec<u8>) -> (r: Result<(), Self::TransportError>)
        ensures
            r is Ok ==> final(self).history() == old(self).history().push(
                (BusOp::Write { bytes: data@ }),
            ),
            r is Err ==> final(self).history() == old(self).history(),
    ;

    /// Clocks out `data` while capturing one response byte for every byte
    /// sent.
    fn transfer_bytes(&mut self, data: &Vec<u8>) -> (r: Result<
        Vec<u8>,
        Self::TransportError,
    >)
        ensures
            r matches Ok(response) ==> response@.len() == data@.len() && final(self).history()
                == old(self).history().push(
                (BusOp::Transfer { sent: data@, received: response@ }),
            ),
            r is Err ==> final(self).history() == old(self).history(),
    ;
}

/// Unified failure taxonomy of the driver.
#[derive(Clone, Debug)]
pub enum Error<SpiError> {
    /// The underlying bus exchange failed; wraps the transport's own error.
    SpiError(SpiError),
    /// A register codec could not interpret a raw byte.
    EncodeError(EncoderError),
    /// A request to write a payload larger than the target register.
    PayloadTooBig,
}

/// The instruction byte that opens a transaction on `target` with `action`.
pub open spec fn instruction_byte(target: Target, action: Action) -> u8 {
    (InstructionRegister { target, action }).spec_encode()
}

/// The byte sequence a write of `data` into `target` puts on the bus.
pub open spec fn write_frame(target: Target, data: Seq<u8>) -> Seq<u8> {
    seq![instruction_byte(target, Action::Write)] + data
}

/// The five-byte request a read of `target` clocks out: the instruction
/// byte and four placeholder bytes.
pub open spec fn read_frame(target: Target) -> Seq<u8> {
    seq![instruction_byte(target, Action::Read), 0u8, 0u8, 0u8, 0u8]
}

/// The single-byte frame of a clear or load action on `target`.
pub open spec fn command_frame(target: Target, action: Action) -> Seq<u8> {
    seq![instruction_byte(target, action)]
}

/// Holds when `after` extends `before` by exactly one transfer exchange
/// that clocked out `frame` and captured one byte per frame byte.
pub open spec fn transfer_step(before: Seq<BusOp>, after: Seq<BusOp>, frame: Seq<u8>) -> bool {
    &&& after.len() == before.len() + 1
    &&& after.drop_last() == before
    &&& after.last() is Transfer
    &&& after.last().sent_bytes() == frame
    &&& after.last().response_bytes().len() == frame.len()
}

/// The signed count that raw counter bytes and a sign bit reconstruct to:
/// the big-endian magnitude of the bytes, negated when the sign is
/// negative.
pub open spec fn signed_count(raw: Seq<u8>, sign: SignBit) -> int {
    if sign is Negative {
        -(be_value(raw) as int)
    } else {
        be_value(raw) as int
    }
}

/// The primary configuration the driver installs at initialization: four
/// counts per quadrature cycle, free running, index disabled.
pub open spec fn default_mdr0() -> Mdr0 {
    Mdr0 {
        quad_count_mode: QuadCountMode::Quad4x,
        cycle_count_mode: CycleCountMode::FreeRunning,
        index_mode: IndexMode::DisableIndex,
        is_index_inverted: false,
        filter_clock: FilterClockDivisionFactor::One,
    }
}

/// The secondary configuration the driver installs at initialization: four
/// significant counter bytes, counting enabled, all flags off.
pub open spec fn default_mdr1() -> Mdr1 {
    Mdr1 {
        counter_mode: CounterMode::Byte4,
        disable_counting: false,
        flag_on_idx: false,
        flag_on_cmp: false,
        flag_on_bw: false,
        flag_on_cy: false,
    }
}

/// The four write exchanges initialization performs, in order: the two
/// configuration registers, four zero bytes into the data-transfer
/// register, and a load of it into the counter.
pub open spec fn init_ops() -> Seq<BusOp> {
    seq![
        (BusOp::Write { bytes: write_frame(Target::Mdr0, seq![default_mdr0().spec_encode()]) }),
        (BusOp::Write { bytes: write_frame(Target::Mdr1, seq![default_mdr1().spec_encode()]) }),
        (BusOp::Write { bytes: write_frame(Target::Dtr, seq![0u8, 0u8, 0u8, 0u8]) }),
        (BusOp::Write { bytes: command_frame(Target::Cntr, Action::Load) }),
    ]
}

/// An LS7366 quadrature encoder buffer attached to a bus transport.
///
/// The driver exclusively owns its transport for its lifetime and caches no
/// register value: every operation round-trips the bus.
pub struct Ls7366<SPI> {
    /// Bus interface where the buffer is attached.
    interface: SPI,
}

impl<SPI: Transport> Ls7366<SPI> {
    /// The exchanges this driver has performed on its bus, oldest first.
    pub closed spec fn bus(&self) -> Seq<BusOp> {
        self.interface.history()
    }

    /// Creates a driver and initializes the chip to default values: four
    /// counts per quadrature cycle over the full four-byte range, a zeroed
    /// counter, and a cleared status register.
    ///
    /// Exactly the four exchanges of [`init_ops`] are put on the bus, in
    /// order. The first failing exchange aborts the sequence and surfaces
    /// its error; the chip is then left partially configured.
    pub fn new(iface: SPI) -> (r: Result<Ls7366<SPI>, Error<SPI::TransportError>>)
        ensures
            r matches Ok(driver) ==> driver.bus() == iface.history() + init_ops(),
            r matches Err(e) ==> e is SpiError,
    {
        let mut driver = Ls7366 { interface: iface };
        let mdr0_payload = Mdr0 {
            quad_count_mode: QuadCountMode::Quad4x,
            cycle_count_mode: CycleCountMode::FreeRunning,
            index_mode: IndexMode::DisableIndex,
            is_index_inverted: false,
            filter_clock: FilterClockDivisionFactor::One,
        };
        let mdr1_payload = Mdr1 {
            counter_mode: CounterMode::Byte4,
            disable_counting: false,
            flag_on_idx: false,
            flag_on_cmp: false,
            flag_on_bw: false,
            flag_on_cy: false,
        };
        // Write primary configuration to the chip.
        let mut mdr0_bytes: Vec<u8> = Vec::new();
        mdr0_bytes.push(mdr0_payload.encode());
        if let Err(e) = driver.write_register(Target::Mdr0, &mdr0_bytes) {
            return Err(e);
        }
        // Write secondary configuration to the chip.
        let mut mdr1_bytes: Vec<u8> = Vec::new();
        mdr1_bytes.push(mdr1_payload.encode());
        if let Err(e) = driver.write_register(Target::Mdr1, &mdr1_bytes) {
            return Err(e);
        }
        // Zero Dtr to prepare a write into Cntr.
        let mut zeros: Vec<u8> = Vec::new();
        zeros.push(0x00);
        zeros.push(0x00);
        zeros.push(0x00);
        zeros.push(0x00);
        if let Err(e) = driver.write_register(Target::Dtr, &zeros) {
            return Err(e);
        }
        // Load Dtr into Cntr, zeroing the counter.
        let empty: Vec<u8> = Vec::new();
        let load = InstructionRegister { target: Target::Cntr, action: Action::Load };
        if let Err(e) = driver.act(load, &empty) {
            return Err(e);
        }
        proof {
            assert(zeros@ =~= seq![0u8, 0u8, 0u8, 0u8]);
            assert(driver.bus() =~= iface.history() + init_ops());
        }
        Ok(driver)
    }

    /// Creates a driver without any initialization actions against the
    /// chip.
    pub fn new_uninit(iface: SPI) -> (r: Ls7366<SPI>)
        ensures
            r.bus() == iface.history(),
    {
        Ls7366 { interface: iface }
    }

    /// Releases the transport back to the caller, ending the driver's
    /// exclusive ownership of the bus.
    pub fn into_inner(self) -> (r: SPI)
        ensures
            r.history() == self.bus(),
    {
        self.interface
    }

    /// Writes up to four bytes into the given register: one write exchange
    /// of the instruction byte followed by the payload. Attempting to write
    /// more than four bytes is an error, detected before any bus activity.
    pub fn write_register(&mut self, target: Target, data: &Vec<u8>) -> (r: Result<
        (),
        Error<SPI::TransportError>,
    >)
        ensures
            data@.len() > 4 ==> (r matches Err(Error::PayloadTooBig)) && final(self).bus() == old(
                self,
            ).bus(),
            data@.len() <= 4 ==> match r {
                Ok(_) => final(self).bus() == old(self).bus().push(
                    (BusOp::Write { bytes: write_frame(target, data@) }),
                ),
                Err(e) => e is SpiError && final(self).bus() == old(self).bus(),
            },
    {
        if data.len() > 4 {
            return Err(Error::PayloadTooBig);
        }
        let ir_cmd = InstructionRegister { target, action: Action::Write };
        let mut payload: Vec<u8> = Vec::new();
        payload.push(ir_cmd.encode());
        let mut idx: usize = 0;
        while idx < data.len()
            invariant
                idx <= data@.len(),
                payload@ == seq![instruction_byte(target, Action::Write)] + data@.take(idx as int),
            decreases data@.len() - idx,
        {
            payload.push(data[idx]);
            idx = idx + 1;
            proof {
                assert(data@.take(idx as int) =~= data@.take(idx - 1).push(data@[idx - 1]));
                assert(payload@ =~= seq![instruction_byte(target, Action::Write)] + data@.take(
                    idx as int,
                ));
            }
        }
        proof {
            assert(data@.take(data@.len() as int) =~= data@);
        }
        match self.interface.write_bytes(&payload) {
            Ok(_) => Ok(()),
            Err(e) => Err(Error::SpiError(e)),
        }
    }

    /// Executes a read against the given register: one transfer exchange of
    /// the five-byte read frame, returning the four response bytes (the
    /// slot exchanged with the instruction byte is discarded).
    ///
    /// Side effects of the physical chip, not of this driver: reading `Str`
    /// clears it to zero, reading `Cntr` overwrites `Otr`, reading `Dtr`
    /// does nothing.
    pub fn read_register(&mut self, target: Target) -> (r: Result<
        Vec<u8>,
        Error<SPI::TransportError>,
    >)
        ensures
            match r {
                Ok(bytes) => transfer_step(old(self).bus(), final(self).bus(), read_frame(target))
                    && bytes@ == final(self).bus().last().response_bytes().subrange(1, 5),
                Err(e) => e is SpiError && final(self).bus() == old(self).bus(),
            },
    {
        let ir = InstructionRegister { target, action: Action::Read };
        let mut tx_buffer: Vec<u8> = Vec::new();
        tx_buffer.push(ir.encode());
        tx_buffer.push(0x00);
        tx_buffer.push(0x00);
        tx_buffer.push(0x00);
        tx_buffer.push(0x00);
        proof {
            assert(tx_buffer@ =~= read_frame(target));
        }
        let result = match self.interface.transfer_bytes(&tx_buffer) {
            Ok(result) => result,
            Err(e) => {
                return Err(Error::SpiError(e));
            },
        };
        proof {
            assert(self.bus().drop_last() =~= old(self).bus());
        }
        let mut rx_buffer: Vec<u8> = Vec::new();
        let mut idx: usize = 1;
        while idx < 5
            invariant
                1 <= idx <= 5,
                result@.len() == 5,
                rx_buffer@ == result@.subrange(1, idx as int),
            decreases 5 - idx,
        {
            rx_buffer.push(result[idx]);
            idx = idx + 1;
            proof {
                assert(result@.subrange(1, idx as int) =~= result@.subrange(1, idx - 1).push(
                    result@[idx - 1],
                ));
            }
        }
        Ok(rx_buffer)
    }

    /// Reads the status register and decodes the last of its four response
    /// bytes into a status snapshot.
    pub fn get_status(&mut self) -> (r: Result<Str, Error<SPI::TransportError>>)
        ensures
            match r {
                Ok(status) => transfer_step(
                    old(self).bus(),
                    final(self).bus(),
                    read_frame(Target::Str),
                ) && status == str_of_byte(final(self).bus().last().response_bytes()[4]),
                Err(e) => e is SpiError && final(self).bus() == old(self).bus(),
            },
    {
        let raw_result = match self.read_register(Target::Str) {
            Ok(bytes) => bytes,
            Err(e) => {
                return Err(e);
            },
        };
        let result = Str::decode(raw_result[3]);
        match result {
            Ok(data) => Ok(data),
            Err(error) => Err(Error::EncodeError(error)),
        }
    }

    /// Clears the status register to zero: one write exchange of the single
    /// clear-instruction byte.
    pub fn clear_status(&mut self) -> (r: Result<(), Error<SPI::TransportError>>)
        ensures
            match r {
                Ok(_) => final(self).bus() == old(self).bus().push(
                    (BusOp::Write { bytes: command_frame(Target::Str, Action::Clear) }),
                ),
                Err(e) => e is SpiError && final(self).bus() == old(self).bus(),
            },
    {
        let empty: Vec<u8> = Vec::new();
        let clear = InstructionRegister { target: Target::Str, action: Action::Clear };
        match self.act(clear, &empty) {
            Ok(_) => Ok(()),
            Err(e) => Err(e),
        }
    }

    /// Reads the chip's current count: one read of the counter register for
    /// the magnitude bytes, then one read of the status register for the
    /// sign, combined into a signed value.
    ///
    /// The two exchanges are sequential, not atomic: the chip may step
    /// between them, so the magnitude and the sign need not belong to one
    /// logical sample. This is inherent to the two-register protocol.
    pub fn get_count(&mut self) -> (r: Result<i64, Error<SPI::TransportError>>)
        ensures
            match r {
                Ok(count) => {
                    let mid = final(self).bus().drop_last();
                    &&& transfer_step(old(self).bus(), mid, read_frame(Target::Cntr))
                    &&& transfer_step(mid, final(self).bus(), read_frame(Target::Str))
                    &&& count == signed_count(
                        mid.last().response_bytes().subrange(1, 5),
                        str_of_byte(final(self).bus().last().response_bytes()[4]).sign_bit,
                    )
                },
                Err(e) => e is SpiError && (final(self).bus() == old(self).bus() || transfer_step(
                    old(self).bus(),
                    final(self).bus(),
                    read_frame(Target::Cntr),
                )),
            },
    {
        let raw_result = match self.read_register(Target::Cntr) {
            Ok(bytes) => bytes,
            Err(e) => {
                return Err(e);
            },
        };
        let status = match self.get_status() {
            Ok(status) => status,
            Err(e) => {
                return Err(e);
            },
        };
        let count = vec_to_i64(&raw_result);
        proof {
            lemma_be_value_bound(raw_result@);
            assert(pow256(0) == 1);
            assert(pow256(1) == 256);
            assert(pow256(2) == 65536);
            assert(pow256(3) == 16777216);
            assert(pow256(4) == 4294967296);
        }
        match status.sign_bit {
            SignBit::Negative => Ok(-count),
            SignBit::Positive => Ok(count),
        }
    }

    /// Performs one transaction against the chip, keyed on the action of
    /// the given instruction:
    ///
    /// - `Clear` and `Load` take no payload and put the single instruction
    ///   byte on the bus; a non-empty payload is refused before any bus
    ///   activity.
    /// - `Write` takes up to four payload bytes and puts the instruction
    ///   byte followed by the payload on the bus; a longer payload is
    ///   refused before any bus activity.
    /// - `Read` ignores the payload, exchanges the five-byte read frame,
    ///   and returns the four response bytes.
    pub fn act(&mut self, command: InstructionRegister, data: &Vec<u8>) -> (r: Result<
        Vec<u8>,
        Error<SPI::TransportError>,
    >)
        ensures
            (command.action is Clear || command.action is Load) ==> {
                &&& data@.len() > 0 ==> (r matches Err(Error::PayloadTooBig)) && final(self).bus()
                    == old(self).bus()
                &&& data@.len() == 0 ==> match r {
                    Ok(out) => out@.len() == 0 && final(self).bus() == old(self).bus().push(
                        (BusOp::Write { bytes: command_frame(command.target, command.action) }),
                    ),
                    Err(e) => e is SpiError && final(self).bus() == old(self).bus(),
                }
            },
            command.action is Write ==> {
                &&& data@.len() > 4 ==> (r matches Err(Error::PayloadTooBig)) && final(self).bus()
                    == old(self).bus()
                &&& data@.len() <= 4 ==> match r {
                    Ok(out) => out@.len() == 0 && final(self).bus() == old(self).bus().push(
                        (BusOp::Write { bytes: write_frame(command.target, data@) }),
                    ),
                    Err(e) => e is SpiError && final(self).bus() == old(self).bus(),
                }
            },
            command.action is Read ==> match r {
                Ok(out) => transfer_step(
                    old(self).bus(),
                    final(self).bus(),
                    read_frame(command.target),
                ) && out@ == final(self).bus().last().response_bytes().subrange(1, 5),
                Err(e) => e is SpiError && final(self).bus() == old(self).bus(),
            },
    {
        match command.action {
            Action::Clear | Action::Load => {
                if data.len() > 0 {
                    return Err(Error::PayloadTooBig);
                }
                let mut tx_buffer: Vec<u8> = Vec::new();
                tx_buffer.push(command.encode());
                proof {
                    assert(command == (InstructionRegister {
                        target: command.target,
                        action: command.action,
                    }));
                    assert(tx_buffer@ =~= command_frame(command.target, command.action));
                }
                match self.interface.write_bytes(&tx_buffer) {
                    Ok(_) => Ok(Vec::new()),
                    Err(e) => Err(Error::SpiError(e)),
                }
            },
            Action::Write => {
                match self.write_register(command.target, data) {
                    Ok(_) => Ok(Vec::new()),
                    Err(e) => Err(e),
                }
            },
            Action::Read => self.read_register(command.target),
        }
    }
}

} // verus!
