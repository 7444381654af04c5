//! The ways in which decoding can fail.

use vstd::prelude::*;
use vstd::std_specs::convert::FromSpecImpl;

verus! {

/// Declares `std::io::Error`, the failure of a byte source, as a type whose
/// values are carried through without being looked into.
#[verifier::external_type_specification]
#[verifier::external_body]
pub struct ExIoError(std::io::Error);

/// Why a bitmap could not be decoded. Every error is final: nothing is
/// retried and no partial image is handed out.
#[derive(Debug)]
pub enum Error {
    /// The byte source itself failed; the cause is kept.
    IO(std::io::Error),
    /// The first two bytes are not the magic `BM`.
    InvalidSignature,
    /// The header declares a pixel payload of no bytes.
    InvalidPixelData,
    /// The compression method is not the uncompressed one.
    UnsupportedCompression,
    /// The bit depth is not 8, 16 or 24.
    UnsupportedBitDepth,
    /// A buffer of the given length cannot hold what was asked of it.
    InvalidRange(usize),
    /// The bytes end before a field or a scanline is complete.
    TruncatedInput,
    /// The header declares a negative width or height.
    NegativeDimension,
}

impl From<std::io::Error> for Error {
    fn from(err: std::io::Error) -> (r: Error) {
        Error::IO(err)
    }
}

impl FromSpecImpl<std::io::Error> for Error {
    open spec fn obeys_from_spec() -> bool {
        true
    }

    open spec fn from_spec(err: std::io::Error) -> Error {
        Error::IO(err)
    }
}

} // verus!
