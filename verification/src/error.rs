//! The errors of the APDU codec.

use vstd::prelude::*;

use crate::asdu::AsduError;

verus! {

/// Why an APDU failed to decode.
#[derive(Debug, Copy, Clone, Eq, PartialEq, Structural)]
pub enum Error {
    /// Fewer than the six bytes every APDU carries.
    ApduTooShort,
    /// The start byte is not 0x68.
    InvalidTelegramHeader,
    /// The length byte is above 253, or does not match the data.
    InvalidLength,
    /// The control field is neither an I, S nor U pattern.
    InvalidControlField,
    /// An S-frame control field with stray bits.
    InvalidSFrameControlFields,
    /// A U-frame control field with stray bits.
    InvalidUFrameControlFields,
    /// An I-frame control field with a reserved bit set.
    InvalidIFrameControlFields,
    /// The ASDU in an I-frame failed to decode.
    InvalidAsdu(AsduError),
}

} // verus!
