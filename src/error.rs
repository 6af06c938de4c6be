//! Errors surfaced by the decoder, each as one item of the decoded stream.
use vstd::prelude::*;

verus! {

/// `std::io::Error`, opaque: a transport failure the outer loop reports.
#[verifier::external_type_specification]
#[verifier::external_body]
pub struct ExIoError(std::io::Error);

#[derive(Debug)]
pub enum DecoderError {
    InvalidSystemID { sysid: u8 },
    InvalidComponentID { compid: u8 },
    Incompatible { incompat_flags: u8 },
    UnknownMessageID { msgid: u32 },
    InvalidCRC { expected_crc: u16, calculated_crc: u16 },
    Io(std::io::Error),
    Unknown,
}

/// Relies on `std::io::Error::new`: an `InvalidData` error saying that the
/// packet's version is not one the codec accepts.
#[verifier::external_body]
pub(crate) fn unsupported_version_error() -> std::io::Error {
    std::io::Error::new(std::io::ErrorKind::InvalidData, "Unsupported packet version")
}

} // verus!
