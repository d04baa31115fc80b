//! The error kinds reported by the protocol engine.

use vstd::prelude::*;
use vstd::string::StringExecFns;
use crate::text::{decimal_digits, decimal_text};

verus! {

/// Everything that can go wrong between the console and the radio.
#[derive(Debug, Clone, Copy, PartialEq, Eq, Structural)]
pub enum Error {
    /// The start delimiter is missing, the header is truncated, or the frame
    /// body does not have the layout its type byte announces.
    FramingError,
    /// The trailing checksum byte disagrees with the one computed over the
    /// frame body.
    ChecksumMismatch,
    /// The payload does not leave room for the frame overhead within the
    /// 16-bit length field, or a command text is longer than memory can
    /// hold.
    PayloadTooLarge,
    /// Fewer bytes than the smallest checksummed frame.
    FrameTooShort,
    /// Fewer bytes arrived than the frame announces: the transport failed or
    /// timed out.
    TransportError,
    /// No module answers to the given name, or the request cannot be
    /// addressed to a module.
    NoSuchModule,
    /// A reply carried fewer bytes than the command's answer needs.
    InvalidResponse,
    /// The module signalled an application-level failure with this code.
    RemoteDeviceError(u8),
    /// The radio is not in the mode the operation needs.
    InvalidMode,
    /// The console line names no known command.
    InvalidCommand,
    /// The console command is known but its arguments are not usable.
    InvalidSubArgs,
    /// The console line holds no token at all.
    EmptyInput,
}

impl Error {
    /// The text shown for the error.
    pub open spec fn spec_message(self) -> Seq<char> {
        match self {
            Error::FramingError => "Start Delimiter not found in response packet"@,
            Error::ChecksumMismatch => "Checksum does not match"@,
            Error::PayloadTooLarge => "Payload exceeds max size"@,
            Error::FrameTooShort => "Frame length does not meet minimum requirements"@,
            Error::TransportError => "Transport failed"@,
            Error::NoSuchModule => "No valid modules detected"@,
            Error::InvalidResponse => "RF data length is wrong"@,
            Error::RemoteDeviceError(code) => "device returned error code: "@ + decimal_digits(
                code as nat,
            ),
            Error::InvalidMode => "Not in command mode"@,
            Error::InvalidCommand => "Invalid Command"@,
            Error::InvalidSubArgs => "Invalid subarguments"@,
            Error::EmptyInput => ""@,
        }
    }

    /// Spells the error out for display.
    pub fn message(&self) -> (s: String)
        ensures
            s@ == self.spec_message(),
    {
        match *self {
            Error::FramingError => "Start Delimiter not found in response packet".to_owned(),
            Error::ChecksumMismatch => "Checksum does not match".to_owned(),
            Error::PayloadTooLarge => "Payload exceeds max size".to_owned(),
            Error::FrameTooShort => "Frame length does not meet minimum requirements".to_owned(),
            Error::TransportError => "Transport failed".to_owned(),
            Error::NoSuchModule => "No valid modules detected".to_owned(),
            Error::InvalidResponse => "RF data length is wrong".to_owned(),
            Error::RemoteDeviceError(code) => {
                let text = "device returned error code: ".to_owned();
                text.concat(decimal_text(code).as_str())
            },
            Error::InvalidMode => "Not in command mode".to_owned(),
            Error::InvalidCommand => "Invalid Command".to_owned(),
            Error::InvalidSubArgs => "Invalid subarguments".to_owned(),
            Error::EmptyInput => "".to_owned(),
        }
    }
}

} // verus!
