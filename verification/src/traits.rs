use vstd::prelude::*;

use crate::errors::EncoderError;

verus! {

/// A register value that packs into a single byte on the wire.
pub trait Encodable {
    /// The byte this value packs to.
    spec fn spec_encode(&self) -> u8;

    /// Packs the value into its wire byte.
    fn encode(&self) -> (r: u8)
        ensures
            r == self.spec_encode(),
    ;
}

/// A register value that unpacks from a single byte on the wire.
/// An unsuccessful decode yields an [`EncoderError`].
pub trait Decodable: Sized {
    /// The value (or the failure) that a raw byte unpacks to.
    spec fn spec_decode(raw: u8) -> Result<Self, EncoderError>;

    /// Unpacks a raw byte.
    fn decode(raw: u8) -> (r: Result<Self, EncoderError>)
        ensures
            r == Self::spec_decode(raw),
    ;
}

} // verus!
