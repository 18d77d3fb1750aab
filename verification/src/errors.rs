use vstd::prelude::*;

verus! {

/// Error produced by a register codec when a raw code falls outside the
/// enumeration it selects from. Every register of this chip fills its bit
/// ranges completely, so for them this error is unreachable; it exists for
/// symmetry and for any future register with a sparse enumeration.
#[derive(Clone, Copy, Debug, PartialEq, Eq, Structural)]
pub enum EncoderError {
    FailedDecode,
}

} // verus!
